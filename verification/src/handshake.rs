//! The wire-level handshake: an inbound datagram is accepted as coming from a
//! peer only if its payload contains a fixed ASCII marker string. The marker
//! is pure ASCII, so searching the raw bytes decides exactly what a search of
//! the lossily UTF-8-decoded text would: an ASCII byte never occurs inside a
//! longer UTF-8 sequence, and decoding maps it to itself.

use vstd::prelude::*;

verus! {

/// Number of bytes in the authentication marker.
pub const MARKER_LEN: usize = 8;

/// The authentication marker, "order up", as its byte sequence.
pub open spec fn marker() -> Seq<u8> {
    seq![111u8, 114u8, 100u8, 101u8, 114u8, 32u8, 117u8, 112u8]
}

/// True when the marker occurs somewhere in `data`.
pub open spec fn spec_contains_marker(data: Seq<u8>) -> bool {
    exists|i: int|
        0 <= i && i + MARKER_LEN <= data.len() && #[trigger] data.subrange(
            i,
            i + MARKER_LEN as int,
        ) =~= marker()
}

/// The marker byte at position `j`.
fn marker_byte(j: usize) -> (b: u8)
    requires
        j < MARKER_LEN,
    ensures
        b == marker()[j as int],
{
    match j {
        0 => 111,
        1 => 114,
        2 => 100,
        3 => 101,
        4 => 114,
        5 => 32,
        6 => 117,
        _ => 112,
    }
}

/// True when the marker occurs starting exactly at `start`.
fn marker_at(data: &Vec<u8>, start: usize) -> (r: bool)
    requires
        start + MARKER_LEN <= data@.len(),
    ensures
        r == (data@.subrange(start as int, start + MARKER_LEN as int) =~= marker()),
{
    let n = data.len();
    let mut j: usize = 0;
    while j < MARKER_LEN
        invariant
            0 <= j <= MARKER_LEN,
            start + MARKER_LEN <= n,
            n == data@.len(),
            forall|k: int| 0 <= k < j ==> data@[start + k] == marker()[k],
        decreases MARKER_LEN - j,
    {
        if data[start + j] != marker_byte(j) {
            assert(data@.subrange(start as int, start + MARKER_LEN as int)[j as int] != marker()[
                j as int
            ]);
            return false;
        }
        j = j + 1;
    }
    assert forall|k: int| 0 <= k < MARKER_LEN implies data@.subrange(
        start as int,
        start + MARKER_LEN as int,
    )[k] == marker()[k] by {}
    true
}

/// Decides the handshake: returns true exactly when the payload contains the
/// authentication marker.
pub fn contains_marker(data: &Vec<u8>) -> (r: bool)
    ensures
        r == spec_contains_marker(data@),
{
    let n = data.len();
    if n < MARKER_LEN {
        return false;
    }
    let last = n - MARKER_LEN;
    let mut i: usize = 0;
    while i <= last
        invariant
            0 <= i <= last + 1,
            last + MARKER_LEN == n,
            n == data@.len(),
            forall|s: int|
                0 <= s < i ==> !(#[trigger] data@.subrange(s, s + MARKER_LEN as int)
                    =~= marker()),
        decreases last + 1 - i,
    {
        if marker_at(data, i) {
            assert(spec_contains_marker(data@));
            return true;
        }
        i = i + 1;
    }
    assert forall|s: int| 0 <= s && s + MARKER_LEN <= data@.len() implies !(#[trigger] data@
        .subrange(s, s + MARKER_LEN as int) =~= marker()) by {}
    false
}

} // verus!
