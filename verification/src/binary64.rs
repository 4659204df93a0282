//! Values of the environment are IEEE-754 binary64 numbers, held here by their
//! 64-bit encodings. This module gives those encodings the total order in which
//! the environment compares them: every NaN is equal to every other NaN and
//! greater than any other value, `-0.0` equals `+0.0`, and the remaining values
//! are ordered as real numbers.
use vstd::prelude::*;

verus! {

/// The sign bit of an encoding.
pub const SIGN_BIT: u64 = 0x8000_0000_0000_0000;

/// The encoding of `+inf`, the largest magnitude that is not a NaN.
pub const POS_INFINITY: u64 = 0x7ff0_0000_0000_0000;

/// The encoding of `+0.0`.
pub const ZERO: u64 = 0;

/// The encoding of `-1.0`.
pub const MINUS_ONE: u64 = 0xbff0_0000_0000_0000;

/// The encoding of `1.0`.
pub const ONE: u64 = 0x3ff0_0000_0000_0000;

/// The encoding of `0.1`.
pub const ONE_TENTH: u64 = 0x3fb9_9999_9999_999a;

/// The encoding of the `f64` nearest to pi.
pub const PI: u64 = 0x4009_21fb_5444_2d18;

/// Whether the sign bit is set.
pub open spec fn sign_set(b: u64) -> bool {
    b >= SIGN_BIT
}

/// The encoding with the sign bit cleared: the absolute value.
pub open spec fn magnitude(b: u64) -> u64 {
    if sign_set(b) {
        (b - SIGN_BIT) as u64
    } else {
        b
    }
}

/// An all-ones exponent with a non-zero fraction.
pub open spec fn is_nan(b: u64) -> bool {
    magnitude(b) > POS_INFINITY
}

/// The encoding with the sign bit flipped: the negation.
pub open spec fn negated(b: u64) -> u64 {
    if sign_set(b) {
        (b - SIGN_BIT) as u64
    } else {
        (b + SIGN_BIT) as u64
    }
}

/// The place of a value in the total order. Between two values that are not
/// NaN, a larger magnitude with a clear sign is larger and a larger magnitude
/// with a set sign is smaller; both zeros sit at `0`, and all NaNs share the
/// place just above `+inf`.
pub open spec fn rank(b: u64) -> int {
    if is_nan(b) {
        POS_INFINITY + 1
    } else if sign_set(b) {
        -magnitude(b)
    } else {
        magnitude(b) as int
    }
}

/// The value clamped into `[low, high]` of the total order.
pub open spec fn clipped(value: u64, low: u64, high: u64) -> u64 {
    if rank(value) < rank(low) {
        low
    } else if rank(value) > rank(high) {
        high
    } else {
        value
    }
}

/// Strictly greater than zero as a number (a NaN is not).
pub open spec fn is_positive(b: u64) -> bool {
    !is_nan(b) && rank(b) > 0
}

/// Negation: flips the sign bit.
pub fn negate(b: u64) -> (r: u64)
    ensures
        r == negated(b),
{
    if b >= SIGN_BIT {
        b - SIGN_BIT
    } else {
        b + SIGN_BIT
    }
}

/// Absolute value: clears the sign bit.
pub fn abs(b: u64) -> (r: u64)
    ensures
        r == magnitude(b),
{
    if b >= SIGN_BIT {
        b - SIGN_BIT
    } else {
        b
    }
}

/// The place of `b` in the total order, as a machine integer.
pub fn rank_of(b: u64) -> (r: i64)
    ensures
        r == rank(b),
{
    let m = abs(b);
    if m > POS_INFINITY {
        0x7ff0_0000_0000_0001i64
    } else if b >= SIGN_BIT {
        -(m as i64)
    } else {
        m as i64
    }
}

/// Equality of the total order: both NaN, or equal as numbers.
pub fn same_value(a: u64, b: u64) -> (r: bool)
    ensures
        r == (rank(a) == rank(b)),
{
    rank_of(a) == rank_of(b)
}

/// Strict order of the total order.
pub fn less_than(a: u64, b: u64) -> (r: bool)
    ensures
        r == (rank(a) < rank(b)),
{
    rank_of(a) < rank_of(b)
}

/// Whether the value is strictly greater than zero as a number.
pub fn positive(b: u64) -> (r: bool)
    ensures
        r == is_positive(b),
{
    let m = abs(b);
    m <= POS_INFINITY && b < SIGN_BIT && m > 0
}

/// Clamps `value` into `[low, high]`: `low` when it lies below `low`, `high`
/// when it lies above `high`, else the value itself.
pub fn clip(value: u64, low: u64, high: u64) -> (r: u64)
    ensures
        r == clipped(value, low, high),
{
    if less_than(value, low) {
        low
    } else if less_than(high, value) {
        high
    } else {
        value
    }
}

/// Negating twice gives back the encoding.
pub proof fn lemma_negate_involutive(b: u64)
    ensures
        negated(negated(b)) == b,
{
}

/// Negation keeps the magnitude and NaN-ness, and mirrors the place of a
/// value that is not NaN.
pub proof fn lemma_negate_mirrors(b: u64)
    ensures
        magnitude(negated(b)) == magnitude(b),
        is_nan(negated(b)) == is_nan(b),
        !is_nan(b) ==> rank(negated(b)) == -rank(b),
{
}

/// Equality of the total order is an equivalence, and it holds exactly when
/// both values are NaN or both are not and they are equal as numbers.
pub proof fn lemma_same_value_equivalence(a: u64, b: u64, c: u64)
    ensures
        rank(a) == rank(a),
        rank(a) == rank(b) ==> rank(b) == rank(a),
        rank(a) == rank(b) && rank(b) == rank(c) ==> rank(a) == rank(c),
        is_nan(a) ==> (rank(a) == rank(b) <==> is_nan(b)),
        (rank(a) == rank(b) && !is_nan(a)) ==> (magnitude(a) == magnitude(b) && (a == b
            || magnitude(a) == 0)),
{
}

/// A clamped value lies between the bounds whenever the bounds are in order.
pub proof fn lemma_clip_within(value: u64, low: u64, high: u64)
    requires
        rank(low) <= rank(high),
    ensures
        rank(low) <= rank(clipped(value, low, high)) <= rank(high),
        clipped(value, low, high) == value <==> (rank(low) <= rank(value) <= rank(high) || (
        rank(value) < rank(low) && value == low) || (rank(value) > rank(high) && value == high)),
{
}

/// Clamping into `[-limit, limit]` for a limit that is a number not below zero
/// gives a number whose absolute value is at most the limit.
pub proof fn lemma_symmetric_clip_bounded(value: u64, limit: u64)
    requires
        !is_nan(limit),
        rank(limit) >= 0,
    ensures
        !is_nan(clipped(value, negated(limit), limit)),
        magnitude(clipped(value, negated(limit), limit)) <= magnitude(limit),
        rank(magnitude(clipped(value, negated(limit), limit))) <= rank(limit),
{
}

/// Clamping, case by case: below the lower bound it gives the lower bound,
/// above the upper bound the upper bound, and between them the value itself.
pub proof fn lemma_clip_cases(value: u64, low: u64, high: u64)
    requires
        rank(low) <= rank(high),
    ensures
        rank(value) < rank(low) ==> clipped(value, low, high) == low,
        rank(value) > rank(high) ==> clipped(value, low, high) == high,
        rank(low) <= rank(value) <= rank(high) ==> clipped(value, low, high) == value,
{
}

/// Clamping into `[-limit, limit]` keeps the sign: a number below zero never
/// comes out above zero and a number above zero never comes out below it.
pub proof fn lemma_symmetric_clip_keeps_sign(value: u64, limit: u64)
    requires
        !is_nan(limit),
        rank(limit) >= 0,
    ensures
        !is_nan(value) && rank(value) < 0 ==> rank(clipped(value, negated(limit), limit)) <= 0,
        !is_nan(value) && rank(value) > 0 ==> rank(clipped(value, negated(limit), limit)) >= 0,
        rank(negated(limit)) <= rank(value) <= rank(limit) ==> clipped(
            value,
            negated(limit),
            limit,
        ) == value,
{
}

/// Positivity is exactly being a number above zero: an encoding with a clear
/// sign, a non-zero magnitude and no NaN payload, whatever its size; and it
/// carries over to every larger number.
pub proof fn lemma_positive_exactly(a: u64, b: u64)
    ensures
        is_positive(a) <==> (!sign_set(a) && 0 < magnitude(a) <= POS_INFINITY),
        is_positive(a) && rank(a) <= rank(b) && !is_nan(b) ==> is_positive(b),
        !is_nan(a) && rank(a) <= 0 ==> !is_positive(a),
        is_nan(a) ==> !is_positive(a),
{
}

} // verus!
