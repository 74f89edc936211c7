//! Real numbers, carried as IEEE-754 binary64 bit patterns.
//!
//! Verified code never performs double-precision arithmetic itself; it only
//! stores, moves and compares these bit patterns. The few facts the algebra
//! needs about the encoding are bit-level and stated here: the two encodings
//! of zero, and the encodings of the constants one and Euler's number that
//! the combinators mention.

use vstd::prelude::*;

verus! {

/// The bit pattern of positive zero.
pub const ZERO_BITS: u64 = 0x0000_0000_0000_0000;

/// The bit pattern of negative zero.
pub const NEG_ZERO_BITS: u64 = 0x8000_0000_0000_0000;

/// The bit pattern of one.
pub const ONE_BITS: u64 = 0x3FF0_0000_0000_0000;

/// The bit pattern of Euler's number.
pub const E_BITS: u64 = 0x4005_BF0A_8B14_5769;

/// Whether the bit pattern `n` encodes a zero.
///
/// IEEE-754 binary64 has exactly two encodings of zero, differing in the
/// sign bit; an equality comparison of doubles treats both as equal to
/// zero, while every other pattern (not-a-number included) compares
/// unequal to it.
pub open spec fn is_zero_bits(n: u64) -> bool {
    n == ZERO_BITS || n == NEG_ZERO_BITS
}

/// Runtime counterpart of [`is_zero_bits`].
pub fn bits_are_zero(n: u64) -> (r: bool)
    ensures
        r == is_zero_bits(n),
{
    n == ZERO_BITS || n == NEG_ZERO_BITS
}

} // verus!
