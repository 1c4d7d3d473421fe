//! Shared numeric utilities: clamping, fixed-point multiplication and
//! division, degree-to-radian conversion, and the fixed control-loop
//! timestep constant.

use vstd::prelude::*;
use vstd::arithmetic::div_mod::{
    lemma_div_nonincreasing, lemma_div_pos_is_pos, lemma_multiply_divide_le,
};

verus! {

/// Fixed-point scale: the integer `SCALE` represents the real value `1.0`.
pub const SCALE: i64 = 1000;

/// Nominal control-loop period in microseconds, used as a fallback when no
/// explicit elapsed time is available to a controller.
pub const DT: i64 = 100;

/// Microseconds per second, for elapsed-time conversions.
pub const USEC_PER_SEC: i64 = 1_000_000;

/// Magnitude bound on each factor of a fixed-point product: two factors of
/// this size multiply without exceeding `i64::MAX`.
pub const MUL_BOUND: i64 = 3_000_000_000;

/// `x` restricted to `[lo, hi]`.
pub open spec fn clamp_spec(x: int, lo: int, hi: int) -> int {
    if x < lo {
        lo
    } else if x > hi {
        hi
    } else {
        x
    }
}

/// Truncating (round-toward-zero) division of `x` by a positive `d`, the
/// semantics of the hardware division the controllers run on.
pub open spec fn tdiv(x: int, d: int) -> int {
    if x >= 0 {
        x / d
    } else {
        -((-x) / d)
    }
}

/// The magnitude of a truncating quotient never exceeds the magnitude of
/// the dividend.
pub proof fn lemma_tdiv_mag(x: int, d: int)
    requires
        d >= 1,
    ensures
        x >= 0 ==> 0 <= tdiv(x, d) <= x,
        x < 0 ==> x <= tdiv(x, d) <= 0,
{
    if x >= 0 {
        lemma_div_pos_is_pos(x, d);
        lemma_div_nonincreasing(x, d);
    } else {
        lemma_div_pos_is_pos(-x, d);
        lemma_div_nonincreasing(-x, d);
    }
}

/// A bound on the dividend of `m * d` bounds the truncating quotient by `m`.
pub proof fn lemma_tdiv_bound(x: int, d: int, m: int)
    requires
        d >= 1,
        m >= 0,
        -(m * d) <= x <= m * d,
    ensures
        -m <= tdiv(x, d) <= m,
{
    assert(d * m == m * d) by (nonlinear_arith);
    if x >= 0 {
        lemma_div_pos_is_pos(x, d);
        lemma_multiply_divide_le(x, d, m);
    } else {
        lemma_div_pos_is_pos(-x, d);
        lemma_multiply_divide_le(-x, d, m);
    }
}

/// Magnitude bounds on two factors bound their product.
pub proof fn lemma_mul_bound(a: int, b: int, ma: int, mb: int)
    requires
        0 <= ma,
        0 <= mb,
        -ma <= a <= ma,
        -mb <= b <= mb,
    ensures
        -(ma * mb) <= a * b <= ma * mb,
{
    assert(-(ma * mb) <= a * b <= ma * mb) by (nonlinear_arith)
        requires
            0 <= ma,
            0 <= mb,
            -ma <= a <= ma,
            -mb <= b <= mb,
    ;
}

/// Returns `value` restricted to `[lo, hi]`; `lo <= hi` is the caller's
/// responsibility.
pub fn constrain(value: i64, lo: i64, hi: i64) -> (r: i64)
    requires
        lo <= hi,
    ensures
        r == clamp_spec(value as int, lo as int, hi as int),
        lo <= r <= hi,
{
    if value < lo {
        lo
    } else if value > hi {
        hi
    } else {
        value
    }
}

/// Returns `value` restricted to `[-limit, limit]`; requires a nonnegative
/// limit.
pub fn constrain_abs(value: i64, limit: i64) -> (r: i64)
    requires
        limit >= 0,
    ensures
        r == clamp_spec(value as int, -limit as int, limit as int),
        -limit <= r <= limit,
{
    constrain(value, -limit, limit)
}

/// Truncating division by a positive divisor.
pub fn div_trunc(x: i64, d: i64) -> (r: i64)
    requires
        d >= 1,
    ensures
        r == tdiv(x as int, d as int),
{
    proof {
        lemma_tdiv_mag(x as int, d as int);
    }
    if x >= 0 {
        x / d
    } else if x == i64::MIN {
        // i64::MIN / -1 is the one overflowing case of hardware division;
        // with a positive divisor the quotient of the minimum still fits.
        match x.checked_div(d) {
            Some(q) => q,
            None => 0,
        }
    } else {
        -((-x) / d)
    }
}

/// Fixed-point multiply-then-divide: the truncating quotient of `a * b` by
/// a positive `d`, with both factors small enough that the product fits.
pub fn mul_div(a: i64, b: i64, d: i64) -> (r: i64)
    requires
        d >= 1,
        -MUL_BOUND <= a <= MUL_BOUND,
        -MUL_BOUND <= b <= MUL_BOUND,
    ensures
        r == tdiv(a * b, d as int),
{
    proof {
        assert(-(MUL_BOUND * MUL_BOUND) <= a * b <= MUL_BOUND * MUL_BOUND) by (nonlinear_arith)
            requires
                -MUL_BOUND <= a <= MUL_BOUND,
                -MUL_BOUND <= b <= MUL_BOUND,
        ;
    }
    let p: i64 = a * b;
    div_trunc(p, d)
}

/// The single-precision value of pi used by legacy firmware, times `10^7`.
pub const PI_TIMES_TEN_MILLION: i64 = 31_415_928;

/// Denominator of the degree-to-radian conversion: `180 * 10^7`.
pub const DEG2RAD_DENOM: i64 = 1_800_000_000;

/// Largest input magnitude accepted by [`deg2rad`], chosen so the scaled
/// product fits in 64 bits.
pub const DEG2RAD_MAX_INPUT: i64 = 200_000_000_000;

/// Degree-to-radian conversion using the fixed single-precision constant
/// `pi = 3.1415928` of the legacy firmware, for bit-reproducible output.
pub fn deg2rad(x: i64) -> (r: i64)
    requires
        -DEG2RAD_MAX_INPUT <= x <= DEG2RAD_MAX_INPUT,
    ensures
        r == tdiv(x * PI_TIMES_TEN_MILLION, DEG2RAD_DENOM as int),
{
    div_trunc(x * PI_TIMES_TEN_MILLION, DEG2RAD_DENOM)
}

} // verus!
