//! Shared bit-manipulation facts: how the mask-and-shift operations used
//! by the executable code relate to the arithmetic (`/`, `%`) form used
//! in the specifications.

use vstd::prelude::*;

verus! {

/// A 16-bit value is the big-endian composition of its two bytes.
pub proof fn lemma_compose16(hi: u8, lo: u8)
    ensures
        ((hi as u16) << 8u16) | (lo as u16) == hi * 256 + lo,
{
    assert(((hi as u16) << 8u16) | (lo as u16) == hi * 256 + lo) by (bit_vector);
}

/// Splitting a 16-bit value with shifts and masks agrees with division
/// and remainder by 256.
pub proof fn lemma_split16(d: u16)
    ensures
        (d >> 8u16) == d / 256,
        (d & 0xFF) == d % 256,
{
    assert((d >> 8u16) == d / 256 && (d & 0xFF) == d % 256) by (bit_vector);
}

/// Masking the low nibble of a byte agrees with remainder by 16.
pub proof fn lemma_low_nibble8(x: u8)
    ensures
        (x & 0x0F) == x % 16,
{
    assert((x & 0x0F) == x % 16) by (bit_vector);
}

/// Masking the low nibble of a 16-bit value agrees with remainder by 16.
pub proof fn lemma_low_nibble16(x: u16)
    ensures
        (x & 0x0F) == x % 16,
{
    assert((x & 0x0F) == x % 16) by (bit_vector);
}

/// Masking the low byte of a 16-bit value agrees with remainder by 256.
pub proof fn lemma_low_byte16(x: u16)
    ensures
        (x & 0xFF) == x % 256,
{
    assert((x & 0xFF) == x % 256) by (bit_vector);
}

/// Masking the low twelve bits of a 16-bit value agrees with remainder
/// by 0x1000; the twelfth bit is the half-carry boundary of 16-bit
/// additions.
pub proof fn lemma_low12_16(x: u16)
    ensures
        (x & 0x0FFF) == x % 0x1000,
{
    assert((x & 0x0FFF) == x % 0x1000) by (bit_vector);
}

/// Masking the low 16 bits of a 32-bit value agrees with remainder by
/// 0x10000.
pub proof fn lemma_low16_32(x: u32)
    ensures
        (x & 0xFFFF) == x % 0x10000,
{
    assert((x & 0xFFFF) == x % 0x10000) by (bit_vector);
}

} // verus!
