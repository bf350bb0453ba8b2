//! Fixed-point arithmetic: every geometric quantity in this crate is an
//! `i64` holding millionths of a unit, and division rounds toward zero the
//! way machine division does.

use vstd::prelude::*;
use vstd::math::abs;
use vstd::arithmetic::div_mod::{
    lemma_div_by_multiple, lemma_div_is_ordered, lemma_div_pos_is_pos,
};

verus! {

/// Fixed-point units per real-world unit: values are counts of millionths.
pub const SCALE: i64 = 1_000_000;

/// Division rounding toward zero, over mathematical integers; this is what
/// machine division of two signed integers computes (for `b != 0`): the
/// magnitudes divide, and the signs combine.
pub open spec fn trunc_div(a: int, b: int) -> int {
    let q = (abs(a) / abs(b)) as int;
    if (a < 0) != (b < 0) {
        -q
    } else {
        q
    }
}

/// The result of squeezing an unbounded integer into the `i64` range:
/// values past an end of the range stick at that end.
pub open spec fn clip_i64(v: int) -> int {
    if v > i64::MAX {
        i64::MAX as int
    } else if v < i64::MIN {
        i64::MIN as int
    } else {
        v
    }
}

/// Wide truncating division for intermediate products.
pub(crate) fn div_i128(a: i128, b: i128) -> (q: i128)
    requires
        b != 0,
        a != i128::MIN,
        b != i128::MIN,
    ensures
        q == trunc_div(a as int, b as int),
{
    let neg: bool = (a < 0) != (b < 0);
    let ua: u128 = if a < 0 {
        (-a) as u128
    } else {
        a as u128
    };
    let ub: u128 = if b < 0 {
        (-b) as u128
    } else {
        b as u128
    };
    proof {
        assert(ua as int == abs(a as int));
        assert(ub as int == abs(b as int));
    }
    let uq: u128 = ua / ub;
    proof {
        vstd::arithmetic::div_mod::lemma_div_nonincreasing(ua as int, ub as int);
    }
    if neg {
        -(uq as i128)
    } else {
        uq as i128
    }
}

/// Squeeze a wide intermediate into the `i64` range.
pub(crate) fn clip_i128_to_i64(v: i128) -> (r: i64)
    ensures
        r as int == clip_i64(v as int),
{
    if v > i64::MAX as i128 {
        i64::MAX
    } else if v < i64::MIN as i128 {
        i64::MIN
    } else {
        v as i64
    }
}

/// A product of values from symmetric ranges lies in the product range.
pub proof fn lemma_mul_in_range(a: int, b: int, am: int, bm: int)
    by (nonlinear_arith)
    requires
        -am <= a <= am,
        -bm <= b <= bm,
        0 <= am,
        0 <= bm,
    ensures
        -(am * bm) <= a * b <= am * bm,
{
}

/// Dividing a value of magnitude at most `m * b` by `b` (rounding toward
/// zero) gives a quotient of magnitude at most `m`.
pub proof fn lemma_trunc_div_bounded(a: int, b: int, m: int)
    requires
        0 < b,
        0 <= m,
        -(m * b) <= a <= m * b,
    ensures
        -m <= trunc_div(a, b) <= m,
{
    if a >= 0 {
        lemma_div_pos_is_pos(a, b);
        lemma_div_is_ordered(a, m * b, b);
        lemma_div_by_multiple(m, b);
    } else {
        lemma_div_pos_is_pos(-a, b);
        lemma_div_is_ordered(-a, m * b, b);
        lemma_div_by_multiple(m, b);
    }
}

} // verus!
