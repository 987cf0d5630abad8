//! Single-bit views of bytes, shared by the register helpers.
use vstd::prelude::*;

verus! {

/// Whether bit `n` (0 = least significant) of `v` is set.
pub open spec fn bit_of(v: u8, n: u8) -> bool {
    (v >> n) & 1u8 == 1u8
}

/// Testing a byte against a one-bit mask is reading that bit.
pub proof fn lemma_mask_is_bit(v: u8, n: u8)
    by (bit_vector)
    requires
        n < 8,
    ensures
        (v & (1u8 << n) == (1u8 << n)) == bit_of(v, n),
        (v & (1u8 << n) != 0) == bit_of(v, n),
{
}

/// Testing a byte against each literal one-bit mask is reading that bit.
pub proof fn lemma_bit_masks(v: u8)
    by (bit_vector)
    ensures
        (v & 0x01 == 0x01) == ((v >> 0u8) & 1u8 == 1u8),
        (v & 0x02 == 0x02) == ((v >> 1u8) & 1u8 == 1u8),
        (v & 0x04 == 0x04) == ((v >> 2u8) & 1u8 == 1u8),
        (v & 0x08 == 0x08) == ((v >> 3u8) & 1u8 == 1u8),
        (v & 0x10 == 0x10) == ((v >> 4u8) & 1u8 == 1u8),
        (v & 0x20 == 0x20) == ((v >> 5u8) & 1u8 == 1u8),
        (v & 0x40 == 0x40) == ((v >> 6u8) & 1u8 == 1u8),
        (v & 0x80 == 0x80) == ((v >> 7u8) & 1u8 == 1u8),
{
}

/// Masking with the low bits bounds a byte.
pub proof fn lemma_low_bits_bounds(v: u8)
    by (bit_vector)
    ensures
        v & 0x01 <= 0x01,
        v & 0x03 <= 0x03,
        v & 0x07 <= 0x07,
        v & 0x0F <= 0x0F,
        v & 0x1F <= 0x1F,
        v & 0x7F <= 0x7F,
        v & 0x0F == v % 16,
        v & 0x1F == v % 32,
        v & 0x07 == v % 8,
        v & 0x03 == v % 4,
        v & 0x01 == v % 2,
{
}

/// Or-ing keeps bits, and keeping bits is transitive.
pub proof fn lemma_bits_kept(a: u8, b: u8, c: u8, k: u8)
    by (bit_vector)
    ensures
        (a | k) & a == a,
        a & a == a,
        (a & b == b && b & c == c) ==> a & c == c,
{
}

} // verus!
