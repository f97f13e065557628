//! Numbers are carried as IEEE-754 binary64 bit patterns. The decisions the
//! evaluator takes on a number (is it NaN, is it zero, how do two numbers
//! compare) are functions of the bit pattern alone and are computed here.

use vstd::prelude::*;

verus! {

/// The sign bit of a binary64 pattern.
pub const SIGN_BIT: u64 = 0x8000_0000_0000_0000;

/// The pattern of positive infinity; every larger magnitude is a NaN.
pub const INFINITY_BITS: u64 = 0x7FF0_0000_0000_0000;

/// The canonical quiet NaN.
pub const NAN_BITS: u64 = 0x7FF8_0000_0000_0000;

/// The pattern of `1.0`.
pub const ONE_BITS: u64 = 0x3FF0_0000_0000_0000;

/// The pattern of `+0.0`.
pub const ZERO_BITS: u64 = 0;

/// The pattern without its sign bit.
pub open spec fn magnitude(bits: u64) -> int {
    if bits >= SIGN_BIT {
        bits - SIGN_BIT
    } else {
        bits as int
    }
}

/// Whether the sign bit is set.
pub open spec fn is_negative(bits: u64) -> bool {
    bits >= SIGN_BIT
}

/// A pattern is a NaN when its exponent is all ones and its fraction is not
/// zero, that is when its magnitude lies above that of infinity.
pub open spec fn is_nan(bits: u64) -> bool {
    magnitude(bits) > INFINITY_BITS
}

/// Both `+0.0` and `-0.0` are zero.
pub open spec fn is_zero(bits: u64) -> bool {
    magnitude(bits) == 0
}

/// An integer that orders all patterns but NaN as their numbers are ordered:
/// magnitudes of one sign are ordered as their patterns are, negative numbers
/// lie below positive ones, and the two zeros coincide.
pub open spec fn order_key(bits: u64) -> int {
    if is_negative(bits) {
        -magnitude(bits)
    } else {
        magnitude(bits)
    }
}

/// `a < b` on numbers: false whenever a NaN is involved.
pub open spec fn less_than(a: u64, b: u64) -> bool {
    !is_nan(a) && !is_nan(b) && order_key(a) < order_key(b)
}

/// `a == b` on numbers: false whenever a NaN is involved, true of the two zeros.
pub open spec fn equal(a: u64, b: u64) -> bool {
    !is_nan(a) && !is_nan(b) && order_key(a) == order_key(b)
}

/// The pattern of the negated number: the sign bit is flipped, also on a NaN.
pub open spec fn negated(bits: u64) -> u64 {
    if bits >= SIGN_BIT {
        (bits - SIGN_BIT) as u64
    } else {
        (bits + SIGN_BIT) as u64
    }
}

/// A number counts as true unless it is zero or NaN.
pub open spec fn truthy(bits: u64) -> bool {
    !is_nan(bits) && !is_zero(bits)
}

fn magnitude_of(bits: u64) -> (m: u64)
    ensures
        m == magnitude(bits),
        m < SIGN_BIT,
{
    if bits >= SIGN_BIT {
        bits - SIGN_BIT
    } else {
        bits
    }
}

pub fn number_is_nan(bits: u64) -> (r: bool)
    ensures
        r == is_nan(bits),
{
    magnitude_of(bits) > INFINITY_BITS
}

pub fn number_is_zero(bits: u64) -> (r: bool)
    ensures
        r == is_zero(bits),
{
    magnitude_of(bits) == 0
}

pub fn number_is_truthy(bits: u64) -> (r: bool)
    ensures
        r == truthy(bits),
{
    !number_is_nan(bits) && !number_is_zero(bits)
}

pub fn number_negate(bits: u64) -> (r: u64)
    ensures
        r == negated(bits),
        magnitude(r) == magnitude(bits),
        is_negative(r) != is_negative(bits),
{
    if bits >= SIGN_BIT {
        bits - SIGN_BIT
    } else {
        bits + SIGN_BIT
    }
}

pub fn number_less_than(a: u64, b: u64) -> (r: bool)
    ensures
        r == less_than(a, b),
{
    if number_is_nan(a) || number_is_nan(b) {
        return false;
    }
    let ma: u64 = magnitude_of(a);
    let mb: u64 = magnitude_of(b);
    if a >= SIGN_BIT {
        if b >= SIGN_BIT {
            mb < ma
        } else {
            ma > 0 || mb > 0
        }
    } else {
        if b >= SIGN_BIT {
            false
        } else {
            ma < mb
        }
    }
}

pub fn number_equal(a: u64, b: u64) -> (r: bool)
    ensures
        r == equal(a, b),
{
    if number_is_nan(a) || number_is_nan(b) {
        return false;
    }
    let ma: u64 = magnitude_of(a);
    let mb: u64 = magnitude_of(b);
    if ma == 0 && mb == 0 {
        true
    } else {
        a == b
    }
}

/// Comparison is irreflexive and a NaN compares with nothing, itself included.
pub proof fn lemma_nan_compares_with_nothing(a: u64, b: u64)
    requires
        is_nan(a) || is_nan(b),
    ensures
        !less_than(a, b),
        !less_than(b, a),
        !equal(a, b),
{
}

/// Of two numbers neither of which is a NaN exactly one of `a < b`, `a == b`,
/// `b < a` holds.
pub proof fn lemma_trichotomy(a: u64, b: u64)
    requires
        !is_nan(a),
        !is_nan(b),
    ensures
        less_than(a, b) || equal(a, b) || less_than(b, a),
        !(less_than(a, b) && equal(a, b)),
        !(less_than(a, b) && less_than(b, a)),
        !(equal(a, b) && less_than(b, a)),
{
}

} // verus!
