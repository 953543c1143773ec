use vstd::prelude::*;

verus! {

/// The ESP-IDF HTTP client's code for a read that timed out.
pub const HTTP_READ_TIMEOUT_CODE: i32 = -0x7007;

/// Errors of the HTTP clients.
#[derive(Debug, PartialEq, Eq, Structural, Clone, Copy)]
pub enum HttpError {
    InizializationError,
    ListeningError,
    ReadError,
    RequestError,
    TimeoutError,
}

/// The methods of an HTTP request.
#[derive(Debug, PartialEq, Eq, Structural, Clone, Copy)]
pub enum HttpMethod {
    Get,
    Post,
    Put,
    Delete,
    Patch,
    Head,
    Options,
}

/// The error for a failed read of a response, by its ESP-IDF code.
pub fn read_error(code: i32) -> (res: HttpError)
    ensures
        res == if code == HTTP_READ_TIMEOUT_CODE {
            HttpError::TimeoutError
        } else {
            HttpError::ReadError
        },
{
    if code == HTTP_READ_TIMEOUT_CODE {
        HttpError::TimeoutError
    } else {
        HttpError::ReadError
    }
}

/// The types of HTTP request headers; `Custom` carries its own name.
pub enum HttpHeaderType<'a> {
    AIM,
    Accept,
    AcceptCharset,
    AcceptDatetime,
    AcceptEncoding,
    AcceptLanguage,
    AccessControlRequestMethod,
    Authorization,
    CacheControl,
    Connection,
    ContentEncoding,
    ContentLength,
    ContentMD5,
    ContentType,
    Cookie,
    Custom(&'a str),
    Date,
    Expect,
    Forwarded,
    From,
    Host,
    HTTP2Settings,
    IfMatch,
    IfModifiedSince,
    IfNoneMatch,
    IfRange,
    IfUnmodifiedSince,
    MaxForwards,
    Origin,
    Pragma,
    Prefer,
    ProxyAuthorization,
    Range,
    Referer,
    TE,
    Trailer,
    TransferEncoding,
    UserAgent,
    Upgrade,
    Via,
    Warning,
}

/// A header of an HTTP request: its type and value.
pub struct HttpHeader<'a> {
    pub header_type: HttpHeaderType<'a>,
    pub value: &'a str,
}

impl<'a> HttpHeader<'a> {
    /// A header of the given type and value.
    pub fn new(header_type: HttpHeaderType<'a>, value: &'a str) -> (res: Self)
        ensures
            res.header_type == header_type,
            res.value == value,
    {
        HttpHeader { header_type, value }
    }
}

impl<'a> HttpHeaderType<'a> {
    /// The name of the header as it is sent.
    pub open spec fn name(self) -> Seq<char> {
        match self {
            HttpHeaderType::AIM => "A-IM"@,
            HttpHeaderType::Accept => "Accept"@,
            HttpHeaderType::AcceptCharset => "Accept-Charset"@,
            HttpHeaderType::AcceptDatetime => "Accept-Datetime"@,
            HttpHeaderType::AcceptEncoding => "Accept-Encoding"@,
            HttpHeaderType::AcceptLanguage => "Accept-Language"@,
            HttpHeaderType::AccessControlRequestMethod => "Access-Control-Request-Method"@,
            HttpHeaderType::Authorization => "Authorization"@,
            HttpHeaderType::CacheControl => "Cache-Control"@,
            HttpHeaderType::Connection => "Connection"@,
            HttpHeaderType::ContentEncoding => "Content-Encoding"@,
            HttpHeaderType::ContentLength => "Content-Length"@,
            HttpHeaderType::ContentMD5 => "Content-MD5"@,
            HttpHeaderType::ContentType => "Content-Type"@,
            HttpHeaderType::Cookie => "Cookie"@,
            HttpHeaderType::Date => "Date"@,
            HttpHeaderType::Expect => "Expect"@,
            HttpHeaderType::Forwarded => "Forwarded"@,
            HttpHeaderType::From => "From"@,
            HttpHeaderType::Host => "Host"@,
            HttpHeaderType::HTTP2Settings => "HTTP2-Settings"@,
            HttpHeaderType::IfMatch => "If-Match"@,
            HttpHeaderType::IfModifiedSince => "If-Modified-Since"@,
            HttpHeaderType::IfNoneMatch => "If-None-Match"@,
            HttpHeaderType::IfRange => "If-Range"@,
            HttpHeaderType::IfUnmodifiedSince => "If-Unmodified-Since"@,
            HttpHeaderType::MaxForwards => "Max-Forwards"@,
            HttpHeaderType::Origin => "Origin"@,
            HttpHeaderType::Pragma => "Pragma"@,
            HttpHeaderType::Prefer => "Prefer"@,
            HttpHeaderType::ProxyAuthorization => "Proxy-Authorization"@,
            HttpHeaderType::Range => "Range"@,
            HttpHeaderType::Referer => "Referer"@,
            HttpHeaderType::TE => "TE"@,
            HttpHeaderType::Trailer => "Trailer"@,
            HttpHeaderType::TransferEncoding => "Transfer-Encoding"@,
            HttpHeaderType::UserAgent => "User-Agent"@,
            HttpHeaderType::Upgrade => "Upgrade"@,
            HttpHeaderType::Via => "Via"@,
            HttpHeaderType::Warning => "Warning"@,
            HttpHeaderType::Custom(h_type) => h_type@,
        }
    }

    /// The name of the header as it is sent.
    pub fn to_string(&self) -> (res: &'a str)
        ensures
            res@ == self.name(),
    {
        match self {
            HttpHeaderType::AIM => "A-IM",
            HttpHeaderType::Accept => "Accept",
            HttpHeaderType::AcceptCharset => "Accept-Charset",
            HttpHeaderType::AcceptDatetime => "Accept-Datetime",
            HttpHeaderType::AcceptEncoding => "Accept-Encoding",
            HttpHeaderType::AcceptLanguage => "Accept-Language",
            HttpHeaderType::AccessControlRequestMethod => "Access-Control-Request-Method",
            HttpHeaderType::Authorization => "Authorization",
            HttpHeaderType::CacheControl => "Cache-Control",
            HttpHeaderType::Connection => "Connection",
            HttpHeaderType::ContentEncoding => "Content-Encoding",
            HttpHeaderType::ContentLength => "Content-Length",
            HttpHeaderType::ContentMD5 => "Content-MD5",
            HttpHeaderType::ContentType => "Content-Type",
            HttpHeaderType::Cookie => "Cookie",
            HttpHeaderType::Date => "Date",
            HttpHeaderType::Expect => "Expect",
            HttpHeaderType::Forwarded => "Forwarded",
            HttpHeaderType::From => "From",
            HttpHeaderType::Host => "Host",
            HttpHeaderType::HTTP2Settings => "HTTP2-Settings",
            HttpHeaderType::IfMatch => "If-Match",
            HttpHeaderType::IfModifiedSince => "If-Modified-Since",
            HttpHeaderType::IfNoneMatch => "If-None-Match",
            HttpHeaderType::IfRange => "If-Range",
            HttpHeaderType::IfUnmodifiedSince => "If-Unmodified-Since",
            HttpHeaderType::MaxForwards => "Max-Forwards",
            HttpHeaderType::Origin => "Origin",
            HttpHeaderType::Pragma => "Pragma",
            HttpHeaderType::Prefer => "Prefer",
            HttpHeaderType::ProxyAuthorization => "Proxy-Authorization",
            HttpHeaderType::Range => "Range",
            HttpHeaderType::Referer => "Referer",
            HttpHeaderType::TE => "TE",
            HttpHeaderType::Trailer => "Trailer",
            HttpHeaderType::TransferEncoding => "Transfer-Encoding",
            HttpHeaderType::UserAgent => "User-Agent",
            HttpHeaderType::Upgrade => "Upgrade",
            HttpHeaderType::Via => "Via",
            HttpHeaderType::Warning => "Warning",
            HttpHeaderType::Custom(h_type) => h_type,
        }
    }
}

/// The (name, value) pairs that a request sends for its headers, in order.
pub fn header_pairs<'a>(headers: &Vec<HttpHeader<'a>>) -> (res: Vec<(&'a str, &'a str)>)
    ensures
        res@.len() == headers@.len(),
        forall|i: int|
            0 <= i < headers@.len() ==> (#[trigger] res@[i]).0@ == headers@[i].header_type.name()
                && res@[i].1 == headers@[i].value,
{
    let mut res: Vec<(&'a str, &'a str)> = Vec::new();
    let mut i: usize = 0;
    while i < headers.len()
        invariant
            i <= headers@.len(),
            res@.len() == i,
            forall|j: int|
                0 <= j < i ==> (#[trigger] res@[j]).0@ == headers@[j].header_type.name()
                    && res@[j].1 == headers@[j].value,
        decreases headers@.len() - i,
    {
        let header = &headers[i];
        res.push((header.header_type.to_string(), header.value));
        i = i + 1;
    }
    res
}

} // verus!
