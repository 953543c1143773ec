use vstd::prelude::*;

verus! {

/// The queue items that one byte array takes at most, for sizing queues.
pub const BYTES_PER_ARRAY: usize = 32;

/// Errors of the interrupt-safe queues.
#[derive(Debug, PartialEq, Eq, Structural, Clone, Copy)]
pub enum ISRQueueError {
    Timeout,
    Empty,
}

/// The items through which a byte array travels in a queue of single bytes:
/// each byte, then an end marker.
pub open spec fn framed(bytes: Seq<u8>) -> Seq<Option<u8>> {
    Seq::new(bytes.len(), |i: int| Some(bytes[i])).push(None)
}

/// The number of items in a queue of single bytes that holds `size` byte
/// arrays.
pub fn byte_array_queue_capacity(size: usize) -> (capacity: usize)
    requires
        size * BYTES_PER_ARRAY <= usize::MAX,
    ensures
        capacity == size * BYTES_PER_ARRAY,
{
    size * BYTES_PER_ARRAY
}

/// The items that send a byte array through a queue of single bytes.
pub fn frame_bytes(item: &Vec<u8>) -> (items: Vec<Option<u8>>)
    ensures
        items@ == framed(item@),
{
    let mut items: Vec<Option<u8>> = Vec::new();
    let mut i: usize = 0;
    while i < item.len()
        invariant
            i <= item@.len(),
            items@ == Seq::new(i as nat, |j: int| Some(item@[j])),
        decreases item@.len() - i,
    {
        items.push(Some(item[i]));
        i = i + 1;
        assert(items@ =~= Seq::new(i as nat, |j: int| Some(item@[j])));
    }
    items.push(None);
    assert(items@ =~= framed(item@));
    items
}

/// The byte array at the front of the items received from a queue of single
/// bytes, and how many items it took (end marker included); `None` when the
/// end marker has not arrived yet.
pub fn unframe_bytes(items: &Vec<Option<u8>>) -> (res: Option<(Vec<u8>, usize)>)
    ensures
        match res {
            Some((bytes, used)) => used <= items@.len() && used == bytes@.len() + 1 && items@.take(
                used as int,
            ) == framed(bytes@),
            None => forall|j: int| 0 <= j < items@.len() ==> items@[j] is Some,
        },
{
    let mut bytes: Vec<u8> = Vec::new();
    let mut i: usize = 0;
    while i < items.len()
        invariant
            i <= items@.len(),
            bytes@.len() == i,
            forall|j: int| 0 <= j < i ==> items@[j] == Some(bytes@[j]),
        decreases items@.len() - i,
    {
        match items[i] {
            Some(b) => {
                bytes.push(b);
            },
            None => {
                assert(items@.take(i + 1) =~= framed(bytes@));
                return Some((bytes, i + 1));
            },
        }
        i = i + 1;
    }
    None
}

/// What goes through the queue comes out unchanged: the items that send a
/// byte array decode to the same array, using all of them.
pub proof fn lemma_frame_round_trip(bytes: Seq<u8>, decoded: Seq<u8>, used: int)
    requires
        used <= framed(bytes).len(),
        used == decoded.len() + 1,
        framed(bytes).take(used) == framed(decoded),
    ensures
        decoded == bytes,
        used == framed(bytes).len(),
{
    let f = framed(bytes);
    let g = framed(decoded);
    if decoded.len() < bytes.len() {
        assert(g[decoded.len() as int] == f.take(used)[decoded.len() as int]);
        assert(f[decoded.len() as int] == Some(bytes[decoded.len() as int]));
    }
    assert(decoded.len() == bytes.len());
    assert forall|i: int| 0 <= i < bytes.len() implies decoded[i] == bytes[i] by {
        assert(g[i] == f.take(used)[i]);
    }
    assert(decoded =~= bytes);
}

} // verus!
