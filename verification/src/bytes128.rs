//! The 16-byte element codec: a signed 128-bit value stored as its
//! little-endian two's-complement byte image.
use vstd::prelude::*;
use vstd::bytes::{
    spec_u128_from_le_bytes, lemma_auto_spec_u128_to_from_le_bytes, u128_from_le_bytes,
    u128_to_le_bytes,
};

verus! {

/// The unsigned bit pattern `u` read as a signed two's-complement value.
pub open spec fn signed_of_bits(u: u128) -> int {
    if u < 0x80000000000000000000000000000000u128 {
        u as int
    } else {
        u as int - 0x100000000000000000000000000000000
    }
}

/// The signed 128-bit value held in 16 little-endian bytes.
pub open spec fn decode_i128(s: Seq<u8>) -> int
    recommends
        s.len() == 16,
{
    signed_of_bits(spec_u128_from_le_bytes(s))
}

pub proof fn lemma_decode_i128_in_range(s: Seq<u8>)
    ensures
        i128::MIN <= decode_i128(s) <= i128::MAX,
{
}

/// Reads the signed 128-bit value stored in 16 little-endian bytes.
pub fn read_i128_le(bytes: &[u8]) -> (v: i128)
    requires
        bytes@.len() == 16,
    ensures
        v as int == decode_i128(bytes@),
{
    let u = u128_from_le_bytes(bytes);
    if u < 0x80000000000000000000000000000000u128 {
        u as i128
    } else {
        let d = u128::MAX - u;
        -(d as i128) - 1
    }
}

/// Writes a signed 128-bit value as its 16 little-endian bytes.
pub fn write_i128_le(v: i128) -> (bytes: Vec<u8>)
    ensures
        bytes@.len() == 16,
        decode_i128(bytes@) == v as int,
{
    let u: u128 = if v >= 0 {
        v as u128
    } else {
        let d = -(v + 1);
        u128::MAX - (d as u128)
    };
    proof {
        lemma_auto_spec_u128_to_from_le_bytes();
    }
    let out = u128_to_le_bytes(u);
    assert(spec_u128_from_le_bytes(out@) == u);
    out
}

} // verus!
