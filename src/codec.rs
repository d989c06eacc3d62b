//! The primitive values of the wire format, read and written through the
//! SCALE codec. Every multi-byte integer travels little-endian; the records of
//! this crate are built from these pieces in `wire`.
use vstd::prelude::*;
use parity_scale_codec::{Decode, Encode};

verus! {

/// The number that a little-endian byte string stands for.
pub open spec fn le_value(b: Seq<u8>) -> nat
    decreases b.len(),
{
    if b.len() == 0 {
        0
    } else {
        b[0] as nat + 256 * le_value(b.drop_first())
    }
}

/// `out` is `before` followed by `n` bytes whose little-endian value is `v`.
pub open spec fn appended_le(before: Seq<u8>, out: Seq<u8>, n: nat, v: nat) -> bool {
    &&& out.len() == before.len() + n
    &&& out.take(before.len() as int) == before
    &&& le_value(out.skip(before.len() as int)) == v
}

/// `out` is `before` followed by the bytes `tail`.
pub open spec fn appended(before: Seq<u8>, out: Seq<u8>, tail: Seq<u8>) -> bool {
    out == before + tail
}

/// Relies on `<u8 as Decode>::decode` over a byte slice: it takes the first
/// byte and fails on an empty input.
#[verifier::external_body]
pub(crate) fn decode_u8(input: &[u8]) -> (r: Option<(u8, &[u8])>)
    ensures
        input@.len() == 0 <==> r is None,
        r matches Some((v, rest)) ==> v == input@[0] && rest@ == input@.skip(1),
{
    let mut rest = input;
    match u8::decode(&mut rest) {
        Ok(v) => Some((v, rest)),
        Err(_) => None,
    }
}

/// Relies on `<bool as Decode>::decode` over a byte slice: byte 0 is `false`,
/// byte 1 is `true`, any other byte or an empty input fails.
#[verifier::external_body]
pub(crate) fn decode_bool(input: &[u8]) -> (r: Option<(bool, &[u8])>)
    ensures
        (input@.len() >= 1 && input@[0] <= 1) <==> r is Some,
        r matches Some((v, rest)) ==> v == (input@[0] == 1) && rest@ == input@.skip(1),
{
    let mut rest = input;
    match bool::decode(&mut rest) {
        Ok(v) => Some((v, rest)),
        Err(_) => None,
    }
}

/// Relies on `<u32 as Decode>::decode` over a byte slice: four bytes,
/// little-endian; fewer than four fail.
#[verifier::external_body]
pub(crate) fn decode_u32(input: &[u8]) -> (r: Option<(u32, &[u8])>)
    ensures
        input@.len() >= 4 <==> r is Some,
        r matches Some((v, rest)) ==> v as nat == le_value(input@.take(4)) && rest@ == input@.skip(4),
{
    let mut rest = input;
    match u32::decode(&mut rest) {
        Ok(v) => Some((v, rest)),
        Err(_) => None,
    }
}

/// Relies on `<u128 as Decode>::decode` over a byte slice: sixteen bytes,
/// little-endian; fewer than sixteen fail.
#[verifier::external_body]
pub(crate) fn decode_u128(input: &[u8]) -> (r: Option<(u128, &[u8])>)
    ensures
        input@.len() >= 16 <==> r is Some,
        r matches Some((v, rest)) ==> v as nat == le_value(input@.take(16)) && rest@ == input@.skip(16),
{
    let mut rest = input;
    match u128::decode(&mut rest) {
        Ok(v) => Some((v, rest)),
        Err(_) => None,
    }
}

/// Relies on `<[u8; 32] as Decode>::decode` over a byte slice: the first
/// thirty-two bytes as they stand; fewer fail.
#[verifier::external_body]
pub(crate) fn decode_account(input: &[u8]) -> (r: Option<([u8; 32], &[u8])>)
    ensures
        input@.len() >= 32 <==> r is Some,
        r matches Some((v, rest)) ==> v@ == input@.take(32) && rest@ == input@.skip(32),
{
    let mut rest = input;
    match <[u8; 32]>::decode(&mut rest) {
        Ok(v) => Some((v, rest)),
        Err(_) => None,
    }
}

/// Relies on `<u8 as Encode>::encode_to` into a `Vec<u8>`: appends the byte.
#[verifier::external_body]
pub(crate) fn encode_u8(v: u8, dest: &mut Vec<u8>)
    ensures
        final(dest)@ == old(dest)@.push(v),
{
    v.encode_to(dest)
}

/// Relies on `<bool as Encode>::encode_to` into a `Vec<u8>`: appends 1 for
/// `true`, 0 for `false`.
#[verifier::external_body]
pub(crate) fn encode_bool(v: bool, dest: &mut Vec<u8>)
    ensures
        final(dest)@ == old(dest)@.push(if v { 1u8 } else { 0u8 }),
{
    v.encode_to(dest)
}

/// Relies on `<u32 as Encode>::encode_to` into a `Vec<u8>`: appends four
/// little-endian bytes.
#[verifier::external_body]
pub(crate) fn encode_u32(v: u32, dest: &mut Vec<u8>)
    ensures
        appended_le(old(dest)@, final(dest)@, 4, v as nat),
{
    v.encode_to(dest)
}

/// Relies on `<u128 as Encode>::encode_to` into a `Vec<u8>`: appends sixteen
/// little-endian bytes.
#[verifier::external_body]
pub(crate) fn encode_u128(v: u128, dest: &mut Vec<u8>)
    ensures
        appended_le(old(dest)@, final(dest)@, 16, v as nat),
{
    v.encode_to(dest)
}

/// Relies on `<[u8; 32] as Encode>::encode_to` into a `Vec<u8>`: appends the
/// thirty-two bytes as they stand.
#[verifier::external_body]
pub(crate) fn encode_account(v: &[u8; 32], dest: &mut Vec<u8>)
    ensures
        appended(old(dest)@, final(dest)@, v@),
{
    v.encode_to(dest)
}

} // verus!
