//! The parts of an IEEE 754 binary64 bit pattern that the solver reads.

use vstd::prelude::*;

verus! {

/// The sign bit of a binary64 pattern.
pub const SIGN_BIT: u64 = 0x8000_0000_0000_0000;

/// Every bit but the sign bit.
pub const MAGNITUDE_MASK: u64 = 0x7fff_ffff_ffff_ffff;

/// The pattern of positive infinity. A magnitude above it is a NaN.
pub const INFINITY_BITS: u64 = 0x7ff0_0000_0000_0000;

/// Whether the sign bit is set.
pub open spec fn sign_set(bits: u64) -> bool {
    bits >= SIGN_BIT
}

/// The pattern with its sign bit cleared: the pattern of the absolute value.
/// Among patterns that are not NaN, a larger magnitude is a larger absolute
/// value.
pub open spec fn magnitude(bits: u64) -> int {
    bits as int % SIGN_BIT as int
}

pub open spec fn is_zero(bits: u64) -> bool {
    magnitude(bits) == 0
}

pub open spec fn is_infinite(bits: u64) -> bool {
    magnitude(bits) == INFINITY_BITS
}

pub open spec fn is_nan(bits: u64) -> bool {
    magnitude(bits) > INFINITY_BITS
}

/// The number compares below zero: its sign is set and it is neither a zero
/// nor a NaN (negative infinity included).
pub open spec fn below_zero(bits: u64) -> bool {
    sign_set(bits) && 0 < magnitude(bits) <= INFINITY_BITS
}

/// The number is finite and above zero.
pub open spec fn positive_finite(bits: u64) -> bool {
    !sign_set(bits) && 0 < magnitude(bits) < INFINITY_BITS
}

/// The absolute value of the number compares below the number whose pattern
/// is `limit`, for a `limit` that is not a NaN. A NaN compares below nothing,
/// and its magnitude is above every such `limit`.
pub open spec fn abs_below(bits: u64, limit: u64) -> bool {
    magnitude(bits) < limit
}

/// The pattern of the absolute value.
pub fn magnitude_of(bits: u64) -> (r: u64)
    ensures
        r == magnitude(bits),
{
    proof {
        assert(bits & 0x7fff_ffff_ffff_ffff == bits % 0x8000_0000_0000_0000) by (bit_vector);
    }
    bits & MAGNITUDE_MASK
}

/// Whether the number compares below zero.
pub fn is_negative(bits: u64) -> (r: bool)
    ensures
        r == below_zero(bits),
{
    let m = magnitude_of(bits);
    bits >= SIGN_BIT && 0 < m && m <= INFINITY_BITS
}

} // verus!
