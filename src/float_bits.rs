//! A model of IEEE-754 binary64 bit patterns, enough to tell a number's sign
//! and absolute value.
use vstd::prelude::*;

verus! {

/// The sign bit of a binary64 pattern.
pub const SIGN_BIT: u64 = 0x8000_0000_0000_0000;

/// The pattern of positive infinity: every exponent bit set, no mantissa bit.
pub const INFINITY_BITS: u64 = 0x7ff0_0000_0000_0000;

/// The sign bit is set.
pub open spec fn sign_set(bits: u64) -> bool {
    bits >= SIGN_BIT
}

/// The pattern with the sign bit cleared: that of the absolute value.
pub open spec fn abs_of(bits: u64) -> u64 {
    (bits as int % SIGN_BIT as int) as u64
}

/// The pattern is a NaN: every exponent bit set and a mantissa bit set.
pub open spec fn is_nan(bits: u64) -> bool {
    abs_of(bits) > INFINITY_BITS
}

/// The pattern is +0.0 or -0.0.
pub open spec fn is_zero(bits: u64) -> bool {
    abs_of(bits) == 0
}

/// The number that the pattern denotes compares `>= 0.0`: it is not a NaN,
/// and either its sign bit is clear or it is a zero.
pub open spec fn is_non_negative(bits: u64) -> bool {
    !is_nan(bits) && (!sign_set(bits) || is_zero(bits))
}

/// Two patterns denote the same number under `==`: neither is a NaN, and
/// they are equal or both are zeros.
pub open spec fn same_number(a: u64, b: u64) -> bool {
    !is_nan(a) && !is_nan(b) && (a == b || (is_zero(a) && is_zero(b)))
}

/// The pattern of the absolute value: the sign bit cleared.
pub fn abs_bits(bits: u64) -> (r: u64)
    ensures
        r == abs_of(bits),
        !sign_set(r),
{
    if bits >= SIGN_BIT {
        bits - SIGN_BIT
    } else {
        bits
    }
}

/// Whether the number that the pattern denotes compares `>= 0.0`.
pub fn non_negative(bits: u64) -> (r: bool)
    ensures
        r == is_non_negative(bits),
{
    let a = abs_bits(bits);
    a <= INFINITY_BITS && (bits < SIGN_BIT || a == 0)
}

} // verus!
