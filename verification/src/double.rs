//! Bit-level view of IEEE-754 binary64 values.
//!
//! A `u64` here always holds the bit pattern of a double-precision value:
//! one sign bit, eleven exponent bits, fifty-two fraction bits. Two
//! operations of the format are exact bit manipulations and are implemented
//! and verified as such: negation flips the sign bit, and NaN detection
//! reads the exponent and fraction fields. Both are load-bearing for the
//! solar computation — the sign of the hour angle decides morning against
//! evening, and NaN is the sole signal that an event never occurs.

use vstd::prelude::*;

verus! {

/// Mask of the sign bit of a binary64 bit pattern.
pub const SIGN_MASK: u64 = 0x8000_0000_0000_0000;

/// Mask of the eleven exponent bits.
pub const EXPONENT_MASK: u64 = 0x7FF0_0000_0000_0000;

/// Mask of the fifty-two fraction bits.
pub const FRACTION_MASK: u64 = 0x000F_FFFF_FFFF_FFFF;

/// Mask of everything but the sign bit.
pub const MAGNITUDE_MASK: u64 = 0x7FFF_FFFF_FFFF_FFFF;

/// A pattern encodes NaN exactly when every exponent bit is set and the
/// fraction is non-zero (all exponent bits set with a zero fraction is an
/// infinity).
pub open spec fn is_nan_bits(b: u64) -> bool {
    b & EXPONENT_MASK == EXPONENT_MASK && b & FRACTION_MASK != 0
}

/// The pattern of the negated value: binary64 negation flips the sign bit
/// and leaves every other bit unchanged, for NaN as for every other value.
pub open spec fn negated_bits(b: u64) -> u64 {
    b ^ SIGN_MASK
}

/// The pattern with the sign bit cleared: the encoding of the absolute
/// value. For non-NaN patterns, the order of the absolute values is the
/// order of these masked patterns as unsigned integers.
pub open spec fn magnitude_bits(b: u64) -> u64 {
    b & MAGNITUDE_MASK
}

/// Whether the pattern encodes NaN.
pub fn is_nan(b: u64) -> (r: bool)
    ensures
        r == is_nan_bits(b),
{
    b & EXPONENT_MASK == EXPONENT_MASK && b & FRACTION_MASK != 0
}

/// The pattern of the negated value.
pub fn negate(b: u64) -> (r: u64)
    ensures
        r == negated_bits(b),
{
    b ^ SIGN_MASK
}

/// Negation is an involution on bit patterns.
pub proof fn lemma_negate_involutive(b: u64)
    ensures
        negated_bits(negated_bits(b)) == b,
{
    assert((b ^ 0x8000_0000_0000_0000u64) ^ 0x8000_0000_0000_0000u64 == b) by (bit_vector);
}

/// Negation never turns NaN into a number or a number into NaN: the sign
/// bit is disjoint from the exponent and fraction fields.
pub proof fn lemma_negate_preserves_nan(b: u64)
    ensures
        is_nan_bits(negated_bits(b)) == is_nan_bits(b),
{
    assert((b ^ 0x8000_0000_0000_0000u64) & 0x7FF0_0000_0000_0000u64 == b
        & 0x7FF0_0000_0000_0000u64) by (bit_vector);
    assert((b ^ 0x8000_0000_0000_0000u64) & 0x000F_FFFF_FFFF_FFFFu64 == b
        & 0x000F_FFFF_FFFF_FFFFu64) by (bit_vector);
}

/// Negation keeps the magnitude: only the sign bit changes.
pub proof fn lemma_negate_preserves_magnitude(b: u64)
    ensures
        magnitude_bits(negated_bits(b)) == magnitude_bits(b),
{
    assert((b ^ 0x8000_0000_0000_0000u64) & 0x7FFF_FFFF_FFFF_FFFFu64 == b
        & 0x7FFF_FFFF_FFFF_FFFFu64) by (bit_vector);
}

} // verus!
