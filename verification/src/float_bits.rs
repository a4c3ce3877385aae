//! Comparison semantics of IEEE-754 double-precision values, written over
//! their 64-bit patterns.
//!
//! The library never holds a floating-point number itself: a coordinate or a
//! computed quantity enters as the pattern `f64::to_bits` gives for it.  The
//! comparisons the data model and the Vincenty solver depend on — exact
//! value equality, the zero test, ordering of a magnitude against a
//! tolerance — are fully determined by those bits, so they are implemented
//! here, verified, and stated by the spec functions below.
//!
//! The encoding facts used: the top bit is the sign, so clearing it is a
//! subtraction of 0x8000_0000_0000_0000 from the patterns at or above that
//! value; a pattern is a NaN when its magnitude bits exceed those of
//! infinity (0x7ff0_0000_0000_0000); the two zeros are the patterns whose
//! magnitude bits are all clear; and among non-negative (resp. negative)
//! patterns the magnitude order is the unsigned order of the patterns
//! (resp. its reverse).

use vstd::prelude::*;

verus! {

/// Magnitude bits: everything but the sign bit.
pub open spec fn spec_abs_bits(bits: u64) -> u64 {
    if bits >= 0x8000_0000_0000_0000 {
        (bits - 0x8000_0000_0000_0000) as u64
    } else {
        bits
    }
}

/// The sign bit is set: the value is negative, a negative zero, or a NaN
/// with its sign bit set.
pub open spec fn spec_sign_bit(bits: u64) -> bool {
    bits >= 0x8000_0000_0000_0000
}

/// The pattern encodes a NaN: exponent all ones and a non-zero mantissa,
/// i.e. magnitude bits above those of infinity.
pub open spec fn spec_is_nan(bits: u64) -> bool {
    spec_abs_bits(bits) > 0x7ff0_0000_0000_0000
}

/// The pattern encodes positive or negative zero.
pub open spec fn spec_is_zero(bits: u64) -> bool {
    spec_abs_bits(bits) == 0
}

/// IEEE-754 equality of the encoded values: false whenever either side is a
/// NaN; the two zeros are equal; every other value is encoded by exactly one
/// pattern, so equality is equality of the patterns.
pub open spec fn spec_eq(a: u64, b: u64) -> bool {
    &&& !spec_is_nan(a)
    &&& !spec_is_nan(b)
    &&& (a == b || (spec_is_zero(a) && spec_is_zero(b)))
}

/// IEEE-754 strict order of the encoded values: false whenever either side
/// is a NaN or both are zeros; otherwise decided by the sign bits, and
/// within one sign by the unsigned order of the patterns.
pub open spec fn spec_lt(a: u64, b: u64) -> bool {
    if spec_is_nan(a) || spec_is_nan(b) {
        false
    } else if spec_is_zero(a) && spec_is_zero(b) {
        false
    } else if spec_sign_bit(a) != spec_sign_bit(b) {
        spec_sign_bit(a)
    } else if !spec_sign_bit(a) {
        a < b
    } else {
        b < a
    }
}

/// Clears the sign bit: the pattern of the absolute value.
pub fn abs_bits(bits: u64) -> (r: u64)
    ensures
        r == spec_abs_bits(bits),
{
    if bits >= 0x8000_0000_0000_0000 {
        bits - 0x8000_0000_0000_0000
    } else {
        bits
    }
}

/// True exactly when the pattern encodes a NaN.
pub fn is_nan(bits: u64) -> (r: bool)
    ensures
        r == spec_is_nan(bits),
{
    abs_bits(bits) > 0x7ff0_0000_0000_0000
}

/// True exactly when the pattern encodes positive or negative zero.
pub fn is_zero(bits: u64) -> (r: bool)
    ensures
        r == spec_is_zero(bits),
{
    abs_bits(bits) == 0
}

/// IEEE-754 equality of the encoded values, as `spec_eq` states it.
pub fn eq(a: u64, b: u64) -> (r: bool)
    ensures
        r == spec_eq(a, b),
{
    if is_nan(a) || is_nan(b) {
        false
    } else {
        a == b || (is_zero(a) && is_zero(b))
    }
}

/// IEEE-754 strict order of the encoded values, as `spec_lt` states it.
pub fn lt(a: u64, b: u64) -> (r: bool)
    ensures
        r == spec_lt(a, b),
{
    if is_nan(a) || is_nan(b) {
        false
    } else if is_zero(a) && is_zero(b) {
        false
    } else {
        let sign_a = a >= 0x8000_0000_0000_0000;
        let sign_b = b >= 0x8000_0000_0000_0000;
        if sign_a != sign_b {
            sign_a
        } else if !sign_a {
            a < b
        } else {
            b < a
        }
    }
}

} // verus!
