//! Token extraction: the one thing this core reads out of a datagram.
//!
//! Wire parsing is the message codec's business (the coap-lite crate); this
//! module only asks it for the token bytes of a datagram and then folds those
//! bytes into the `u32` correlation token that the dispatch table is keyed by.

use vstd::prelude::*;

verus! {

/// The token bytes that the message codec extracts from a datagram, or
/// `None` where the bytes do not parse as a protocol message. Parsing is a
/// function of the bytes alone.
pub uninterp spec fn token_bytes_of(data: Seq<u8>) -> Option<Seq<u8>>;

/// Relies on `coap_lite::Packet::from_bytes` and `coap_lite::Packet::get_token`:
/// parsing depends on the datagram bytes alone, and the token of a parsed
/// packet is a fixed field of it.
#[verifier::external_body]
fn decode_token_bytes(data: &Vec<u8>) -> (r: Option<Vec<u8>>)
    ensures
        match r {
            Some(t) => token_bytes_of(data@) == Some(t@),
            None => token_bytes_of(data@) is None,
        },
{
    match coap_lite::Packet::from_bytes(&data[..]) {
        Ok(p) => Some(p.get_token().to_vec()),
        Err(_) => None,
    }
}

/// The byte at index `i`, or zero past the end: tokens shorter than four
/// bytes are read as if zero-padded.
pub open spec fn byte_or_zero(t: Seq<u8>, i: int) -> int {
    if 0 <= i < t.len() {
        t[i] as int
    } else {
        0
    }
}

/// The `u32` value of a token: its first four bytes, little endian; shorter
/// tokens are zero-padded, longer ones are truncated to four bytes.
pub open spec fn token_value(t: Seq<u8>) -> u32 {
    (byte_or_zero(t, 0) + byte_or_zero(t, 1) * 0x100 + byte_or_zero(t, 2) * 0x10000 + byte_or_zero(
        t,
        3,
    ) * 0x1000000) as u32
}

/// The correlation token of a datagram: the token bytes the codec extracts,
/// read as a little-endian `u32`; `None` where the datagram does not parse.
pub open spec fn token_of(data: Seq<u8>) -> Option<u32> {
    match token_bytes_of(data) {
        Some(t) => Some(token_value(t)),
        None => None,
    }
}

/// Reads a token's value: its first four bytes, little endian.
pub fn token_from_bytes(t: &Vec<u8>) -> (r: u32)
    ensures
        r == token_value(t@),
{
    let mut v: u32 = 0;
    if t.len() > 0 {
        v = t[0] as u32;
    }
    if t.len() > 1 {
        v = v + (t[1] as u32) * 0x100;
    }
    if t.len() > 2 {
        v = v + (t[2] as u32) * 0x10000;
    }
    if t.len() > 3 {
        v = v + (t[3] as u32) * 0x1000000;
    }
    v
}

/// Decodes the correlation token of a datagram: `Some` exactly where the
/// bytes parse as a protocol message, and then the token's `u32` value.
pub fn decode_token(data: &Vec<u8>) -> (r: Option<u32>)
    ensures
        r == token_of(data@),
{
    match decode_token_bytes(data) {
        Some(t) => Some(token_from_bytes(&t)),
        None => None,
    }
}

} // verus!
