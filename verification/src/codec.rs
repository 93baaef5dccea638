//! The SCALE encoding of the values that contracts exchange with the runtime, by means of the
//! `parity-scale-codec` crate.
use parity_scale_codec::{DecodeLimit, Encode};
use vstd::prelude::*;

verus! {

/// The maximum nesting depth a contract can use when encoding types.
pub const MAX_DECODE_NESTING: u32 = 256;

/// The little-endian value of four bytes.
pub open spec fn le_u32(b: Seq<u8>) -> u32 {
    (b[0] as int + 256 * (b[1] as int) + 65536 * (b[2] as int) + 16777216 * (b[3] as int)) as u32
}

/// The four little-endian bytes of `v`.
pub open spec fn u32_le_bytes(v: u32) -> Seq<u8> {
    seq![(v % 256) as u8, ((v / 256) % 256) as u8, ((v / 65536) % 256) as u8, (v / 16777216) as u8]
}

/// The eight little-endian bytes of `v`.
pub open spec fn u64_le_bytes(v: u64) -> Seq<u8> {
    Seq::new(8, |i: int| ((v as int / pow256(i)) % 256) as u8)
}

/// The sixteen little-endian bytes of `v`.
pub open spec fn u128_le_bytes(v: u128) -> Seq<u8> {
    Seq::new(16, |i: int| ((v as int / pow256(i)) % 256) as u8)
}

/// `256` to the power `i`.
pub open spec fn pow256(i: int) -> int
    decreases i,
{
    if i <= 0 { 1 } else { 256 * pow256(i - 1) }
}

/// The little-endian value of `b`, byte `0` being the least significant.
pub open spec fn le_value(b: Seq<u8>) -> int
    decreases b.len(),
{
    if b.len() == 0 {
        0
    } else {
        b[0] as int + 256 * le_value(b.drop_first())
    }
}

/// The value of the compact `u32` at the start of `bytes` and the number of bytes it takes,
/// or `None` where `bytes` starts with no valid compact `u32`. The two low bits of the first
/// byte give the mode: one byte, two bytes, four bytes (each the value shifted left by two),
/// or a first byte `3` followed by the value in four bytes; each mode holds only values too
/// large for the shorter ones.
pub open spec fn compact_u32_prefix(bytes: Seq<u8>) -> Option<(int, int)> {
    if bytes.len() < 1 {
        None
    } else {
        let p = bytes[0] as int;
        if p % 4 == 0 {
            Some((p / 4, 1))
        } else if p % 4 == 1 {
            let x = le_value(bytes.subrange(0, 2)) / 4;
            if bytes.len() >= 2 && 64 <= x { Some((x, 2)) } else { None }
        } else if p % 4 == 2 {
            let x = le_value(bytes.subrange(0, 4)) / 4;
            if bytes.len() >= 4 && 16384 <= x { Some((x, 4)) } else { None }
        } else {
            let x = le_value(bytes.subrange(1, 5));
            if p == 3 && bytes.len() >= 5 && 0x4000_0000 <= x { Some((x, 5)) } else { None }
        }
    }
}

/// What `Vec<[u8; 32]>` decodes to from `bytes`, each item as its 32 bytes, when all of `bytes`
/// is consumed: a compact length `n`, then exactly `n` items of 32 bytes.
pub open spec fn decoded_hash_list(bytes: Seq<u8>) -> Option<Seq<Seq<u8>>> {
    match compact_u32_prefix(bytes) {
        None => None,
        Some((n, k)) => if bytes.len() == k + 32 * n {
            Some(Seq::new(n as nat, |i: int| bytes.subrange(k + 32 * i, k + 32 * i + 32)))
        } else {
            None
        },
    }
}

/// `u32::encode`: the SCALE encoding of a `u32` is its four little-endian bytes.
#[verifier::external_body]
pub(crate) fn encode_u32(v: u32) -> (r: Vec<u8>)
    ensures
        r@ == u32_le_bytes(v),
{
    v.encode()
}

/// `u64::encode`: the SCALE encoding of a `u64` is its eight little-endian bytes.
#[verifier::external_body]
pub(crate) fn encode_u64(v: u64) -> (r: Vec<u8>)
    ensures
        r@ == u64_le_bytes(v),
{
    v.encode()
}

/// `u128::encode`: the SCALE encoding of a `u128` is its sixteen little-endian bytes.
#[verifier::external_body]
pub(crate) fn encode_u128(v: u128) -> (r: Vec<u8>)
    ensures
        r@ == u128_le_bytes(v),
{
    v.encode()
}

/// `bool::encode`: the SCALE encoding of a `bool` is one byte, `1` for `true` and `0` for
/// `false`.
#[verifier::external_body]
pub(crate) fn encode_bool(v: bool) -> (r: Vec<u8>)
    ensures
        r@ == seq![if v { 1u8 } else { 0u8 }],
{
    v.encode()
}

/// `u32::decode_all_with_depth_limit`: four bytes decode to their little-endian value.
#[verifier::external_body]
pub(crate) fn decode_u32(bytes: &[u8]) -> (r: Option<u32>)
    requires
        bytes@.len() == 4,
    ensures
        r == Some(le_u32(bytes@)),
{
    let mut input = bytes;
    u32::decode_all_with_depth_limit(MAX_DECODE_NESTING, &mut input).ok()
}

/// `u128::decode_all_with_depth_limit`: sixteen bytes decode to their little-endian value.
#[verifier::external_body]
pub(crate) fn decode_u128(bytes: &[u8]) -> (r: Option<u128>)
    requires
        bytes@.len() == 16,
    ensures
        r is Some,
        r->0 as int == le_value(bytes@),
{
    let mut input = bytes;
    u128::decode_all_with_depth_limit(MAX_DECODE_NESTING, &mut input).ok()
}

/// `Vec::<[u8; 32]>::decode_all_with_depth_limit`: a compact length followed by that many
/// 32-byte items, with nothing left over; `Some` exactly when `decoded_hash_list` is, and
/// then with the same items.
#[verifier::external_body]
pub(crate) fn decode_hash_list(bytes: &[u8]) -> (r: Option<Vec<Vec<u8>>>)
    ensures
        r is Some <==> decoded_hash_list(bytes@) is Some,
        r is Some ==> r->0@.len() == decoded_hash_list(bytes@)->0.len(),
        r is Some ==> forall|i: int|
            0 <= i < r->0@.len() ==> #[trigger] r->0@[i]@ == decoded_hash_list(bytes@)->0[i],
{
    let mut input = bytes;
    Vec::<[u8; 32]>::decode_all_with_depth_limit(MAX_DECODE_NESTING, &mut input)
        .ok()
        .map(|items| items.into_iter().map(|item| item.to_vec()).collect())
}

} // verus!
