//! Single-precision values, carried as their 32-bit patterns.
//!
//! A pattern is a sign bit above 31 bits of magnitude. Among patterns that are
//! numbers, a larger magnitude field means a larger absolute value, and every
//! pattern that is not a finite number has a magnitude field above all finite
//! ones. So a bound on the absolute value is a bound on the magnitude field.

use vstd::prelude::*;

verus! {

/// The pattern of 0.0.
pub const ZERO: u32 = 0;

/// The pattern of 0.5.
pub const HALF: u32 = 0x3F00_0000;

/// The pattern of 1.0.
pub const ONE: u32 = 0x3F80_0000;

/// The sign bit of a pattern.
pub const SIGN_BIT: u32 = 0x8000_0000;

/// The pattern with its sign bit cleared.
pub open spec fn magnitude(bits: u32) -> u32 {
    if bits >= SIGN_BIT {
        (bits - SIGN_BIT) as u32
    } else {
        bits
    }
}

/// Whether the absolute value of `bits` is at most the value of `bound`, for a
/// `bound` that is a finite, non-negative number.
pub open spec fn within(bits: u32, bound: u32) -> bool {
    magnitude(bits) <= bound
}

/// Computes [`magnitude`].
pub fn clear_sign(bits: u32) -> (out: u32)
    ensures
        out == magnitude(bits),
        out < SIGN_BIT,
{
    if bits >= SIGN_BIT {
        bits - SIGN_BIT
    } else {
        bits
    }
}

/// Decides [`within`].
pub fn is_within(bits: u32, bound: u32) -> (out: bool)
    ensures
        out == within(bits, bound),
{
    clear_sign(bits) <= bound
}

} // verus!
