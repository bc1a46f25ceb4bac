//! Bit-level layout of the 64-bit payload of a tagged value.
//!
//! Scalar payloads hold the value zero- or sign-extended to 64 bits (for the
//! floating-point kinds, the IEEE-754 bit pattern in the low 32 or 64 bits).
//! Buffer and text payloads pack two 32-bit fields: the high 32 bits hold the
//! element count, the low 32 bits the arena address of the first element.
//! The count field is the length truncated to 32 bits; lengths of exactly
//! `u32::MAX` survive intact, anything larger wraps — a documented hazard of
//! the wire format, not an error this layer reports.

use vstd::prelude::*;

verus! {

/// Number of distinct values of a 32-bit field; the modulus of the count
/// truncation and the first address that no longer fits the low field.
pub const FIELD_LIMIT: u64 = 0x1_0000_0000;

/// High 32 bits of a packed payload: the element count of a buffer or text
/// value.
pub open spec fn hi32(p: u64) -> u64 {
    p >> 32
}

/// Low 32 bits of a packed payload: the arena address of the data.
pub open spec fn lo32(p: u64) -> u64 {
    p & 0xFFFF_FFFF
}

/// A count and an address packed into one 64-bit payload.
pub open spec fn pack_pair(count: u64, addr: u64) -> u64 {
    (count << 32) | addr
}

/// The count field stored for a region of `len` elements: the length
/// truncated to 32 bits.
pub open spec fn count_of_len(len: u64) -> u64 {
    len & 0xFFFF_FFFF
}

/// Packing a 32-bit count with a 32-bit address loses neither field.
pub proof fn lemma_pack_pair_inverts(count: u64, addr: u64)
    requires
        count < FIELD_LIMIT,
        addr < FIELD_LIMIT,
    ensures
        hi32(pack_pair(count, addr)) == count,
        lo32(pack_pair(count, addr)) == addr,
{
    assert(count < 0x1_0000_0000 && addr < 0x1_0000_0000 ==> ((count << 32) | addr) >> 32 == count
        && ((count << 32) | addr) & 0xFFFF_FFFF == addr) by (bit_vector);
}

/// The count field is exact for every length below the 32-bit limit — in
/// particular for a buffer of exactly `u32::MAX` elements — and wraps
/// modulo `2^32` beyond it, so a length of exactly `2^32` stores as zero.
pub proof fn lemma_count_truncation(len: u64)
    ensures
        count_of_len(len) == len % FIELD_LIMIT,
        len < FIELD_LIMIT ==> count_of_len(len) == len,
        count_of_len(0xFFFF_FFFF) == 0xFFFF_FFFF,
        count_of_len(FIELD_LIMIT) == 0,
{
    assert((len & 0xFFFF_FFFF) == len % 0x1_0000_0000 && (len < 0x1_0000_0000 ==> (len
        & 0xFFFF_FFFF) == len) && (0xFFFF_FFFFu64 & 0xFFFF_FFFF) == 0xFFFF_FFFF && (
    0x1_0000_0000u64 & 0xFFFF_FFFF) == 0) by (bit_vector);
}

/// Builds the payload of a buffer or text value: the length's low 32 bits as
/// the count field, the arena address as the data field.
pub fn pack_buffer_payload(len: u64, addr: u64) -> (p: u64)
    requires
        addr < FIELD_LIMIT,
    ensures
        p == pack_pair(count_of_len(len), addr),
        hi32(p) == count_of_len(len),
        lo32(p) == addr,
{
    let count: u64 = len & 0xFFFF_FFFF;
    proof {
        lemma_count_truncation(len);
        assert(len & 0xFFFF_FFFF < 0x1_0000_0000) by (bit_vector);
        lemma_pack_pair_inverts(count, addr);
    }
    (count << 32u64) | addr
}

/// Splits a packed payload into its count and address fields.
pub fn unpack_pair(p: u64) -> (r: (u64, u64))
    ensures
        r.0 == hi32(p),
        r.1 == lo32(p),
        r.0 < FIELD_LIMIT,
        r.1 < FIELD_LIMIT,
{
    proof {
        assert(p >> 32 < 0x1_0000_0000 && p & 0xFFFF_FFFF < 0x1_0000_0000) by (bit_vector);
    }
    (p >> 32u64, p & 0xFFFF_FFFF)
}

} // verus!
