use vstd::prelude::*;

use crate::microcontroller_src::peripherals::PeripheralError;

verus! {

/// Errors when working with WiFi.
#[derive(Debug, PartialEq, Eq, Structural, Clone, Copy)]
pub enum WifiError {
    ConfigurationError,
    ConnectingError,
    ConnectionTimeout,
    DnsNotFound,
    HttpError,
    InformationError,
    NvsAlreadyTaken,
    PeripheralError(PeripheralError),
    StartingError,
    WifiNotInitialized,
    ScanError,
}

impl WifiError {
    /// Wraps a peripheral error.
    pub fn from_peripheral_error(value: PeripheralError) -> (res: WifiError)
        ensures
            res == WifiError::PeripheralError(value),
    {
        WifiError::PeripheralError(value)
    }

    /// The error for a failed wait for the connection, by its ESP-IDF code.
    pub fn from_connect_wait_code(code: i32) -> (res: WifiError)
        ensures
            res == if code == crate::utils::esp32_framework_error::ESP_ERR_TIMEOUT {
                WifiError::ConnectionTimeout
            } else {
                WifiError::ConnectingError
            },
    {
        if code == crate::utils::esp32_framework_error::ESP_ERR_TIMEOUT {
            WifiError::ConnectionTimeout
        } else {
            WifiError::ConnectingError
        }
    }
}

/// The authentication methods of a WiFi access point.
#[derive(Debug, PartialEq, Eq, Structural, Clone, Copy)]
pub enum AuthKind {
    NoAuth,
    WEP,
    WPA,
    WPA2Personal,
    WPAWPA2Personal,
    WPA2Enterprise,
    WPA3Personal,
    WPA2WPA3Personal,
    WAPIPersonal,
}

/// The name shown for an authentication method.
pub open spec fn auth_name(method: Option<AuthKind>) -> Seq<char> {
    match method {
        Some(AuthKind::WEP) => "WEP"@,
        Some(AuthKind::WPA) => "WPA"@,
        Some(AuthKind::WPA2Personal) => "WPA2-Personal"@,
        Some(AuthKind::WPAWPA2Personal) => "WPA/WPA2-Personal"@,
        Some(AuthKind::WPA2Enterprise) => "WPA2-Enterprise"@,
        Some(AuthKind::WPA3Personal) => "WPA3-Personal"@,
        Some(AuthKind::WPA2WPA3Personal) => "WPA2/WPA3-Personal"@,
        Some(AuthKind::WAPIPersonal) => "WAPI"@,
        _ => "None"@,
    }
}

/// The name shown for an authentication method.
pub fn authentication_method_name(method: Option<AuthKind>) -> (res: &'static str)
    ensures
        res@ == auth_name(method),
{
    match method {
        Some(AuthKind::WEP) => "WEP",
        Some(AuthKind::WPA) => "WPA",
        Some(AuthKind::WPA2Personal) => "WPA2-Personal",
        Some(AuthKind::WPAWPA2Personal) => "WPA/WPA2-Personal",
        Some(AuthKind::WPA2Enterprise) => "WPA2-Enterprise",
        Some(AuthKind::WPA3Personal) => "WPA3-Personal",
        Some(AuthKind::WPA2WPA3Personal) => "WPA2/WPA3-Personal",
        Some(AuthKind::WAPIPersonal) => "WAPI",
        _ => "None",
    }
}

/// An access point found by a scan: its SSID, the name of its
/// authentication method, and its signal strength.
pub struct AccesPoint {
    pub ssid: String,
    pub authentication_method: String,
    pub signal_strength: i8,
}

impl AccesPoint {
    /// The access point found with this SSID, method and strength.
    pub fn new(ssid: String, auth_method: Option<AuthKind>, signal_strength: i8) -> (res: Self)
        ensures
            res.ssid@ == ssid@,
            res.authentication_method@ == auth_name(auth_method),
            res.signal_strength == signal_strength,
    {
        let name = authentication_method_name(auth_method);
        AccesPoint {
            ssid,
            authentication_method: String::from_str(name),
            signal_strength,
        }
    }
}

/// The authentication method used to connect: WPA/WPA2 personal with a
/// password, none without.
pub fn connection_auth_method(password: &Option<String>) -> (res: AuthKind)
    ensures
        res == if password is Some {
            AuthKind::WPAWPA2Personal
        } else {
            AuthKind::NoAuth
        },
{
    match password {
        Some(_) => AuthKind::WPAWPA2Personal,
        None => AuthKind::NoAuth,
    }
}

} // verus!
