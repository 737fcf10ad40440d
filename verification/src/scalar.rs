//! Single-precision values as IEEE-754 bit patterns.
//!
//! A pattern has a sign bit and a 31-bit magnitude. Magnitudes above
//! [`INFINITY`] are NaN. Apart from NaN, values are ordered by their
//! sign-magnitude key, under which the two zeros are equal.

use vstd::prelude::*;

verus! {

/// The pattern of `+0.0`.
pub const ZERO: u32 = 0;

/// The pattern of `0.5`.
pub const HALF: u32 = 0x3f00_0000;

/// The pattern of `1.0`.
pub const ONE: u32 = 0x3f80_0000;

/// The pattern of positive infinity, the largest magnitude that is not NaN.
pub const INFINITY: u32 = 0x7f80_0000;

/// The sign bit.
pub const SIGN_BIT: u32 = 0x8000_0000;

/// The pattern without its sign bit.
pub open spec fn magnitude(bits: u32) -> int {
    if bits >= SIGN_BIT {
        bits - SIGN_BIT
    } else {
        bits as int
    }
}

/// The sign bit is set.
pub open spec fn negative(bits: u32) -> bool {
    bits >= SIGN_BIT
}

/// The pattern is a NaN.
pub open spec fn nan(bits: u32) -> bool {
    magnitude(bits) > INFINITY
}

/// The integer by which patterns other than NaN are ordered: the magnitude,
/// negated where the sign bit is set.
pub open spec fn key(bits: u32) -> int {
    if negative(bits) {
        -magnitude(bits)
    } else {
        magnitude(bits)
    }
}

/// `a < b` as values: neither is NaN, and the key of `a` is the smaller.
pub open spec fn lt(a: u32, b: u32) -> bool {
    !nan(a) && !nan(b) && key(a) < key(b)
}

/// The pattern with its sign bit flipped.
pub open spec fn neg(bits: u32) -> u32 {
    if bits >= SIGN_BIT {
        (bits - SIGN_BIT) as u32
    } else {
        (bits + SIGN_BIT) as u32
    }
}

/// Tells whether a pattern is a NaN.
pub fn is_nan(bits: u32) -> (r: bool)
    ensures
        r == nan(bits),
{
    if bits >= SIGN_BIT {
        bits - SIGN_BIT > INFINITY
    } else {
        bits > INFINITY
    }
}

/// Flips the sign bit, which negates the value (a NaN stays a NaN).
pub fn negate(bits: u32) -> (r: u32)
    ensures
        r == neg(bits),
{
    if bits >= SIGN_BIT {
        bits - SIGN_BIT
    } else {
        bits + SIGN_BIT
    }
}

/// Compares two patterns as values. A comparison with a NaN is false.
pub fn less_than(a: u32, b: u32) -> (r: bool)
    ensures
        r == lt(a, b),
{
    if is_nan(a) || is_nan(b) {
        return false;
    }
    let a_key: i64 = if a >= SIGN_BIT {
        -((a - SIGN_BIT) as i64)
    } else {
        a as i64
    };
    let b_key: i64 = if b >= SIGN_BIT {
        -((b - SIGN_BIT) as i64)
    } else {
        b as i64
    };
    a_key < b_key
}

/// Negating twice gives the pattern back, negation mirrors the key, and it
/// keeps NaN apart from the other patterns.
pub proof fn lemma_neg(bits: u32)
    ensures
        neg(neg(bits)) == bits,
        key(neg(bits)) == -key(bits),
        magnitude(neg(bits)) == magnitude(bits),
        nan(neg(bits)) == nan(bits),
{
}

/// Of two patterns that are not NaN exactly one holds: the first is less, the
/// second is less, or their keys are equal.
pub proof fn lemma_lt_total(a: u32, b: u32)
    requires
        !nan(a),
        !nan(b),
    ensures
        lt(a, b) || lt(b, a) || key(a) == key(b),
        !(lt(a, b) && lt(b, a)),
        lt(a, b) ==> key(a) != key(b),
{
}

} // verus!
