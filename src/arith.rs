//! Fixed-point helpers: scaling by a ratio with rounding toward zero, and clamping.
use vstd::prelude::*;

verus! {

/// `v * num / den`, rounded toward zero.
pub open spec fn scaled(v: int, num: int, den: int) -> int {
    if v >= 0 {
        v * num / den
    } else {
        -((-v) * num / den)
    }
}

/// `v` brought into `[lo, hi]`.
pub open spec fn clamped(v: int, lo: int, hi: int) -> int {
    if v < lo {
        lo
    } else if v > hi {
        hi
    } else {
        v
    }
}

/// A value within `bound` of zero stays, once scaled, within the scaled bound.
pub proof fn lemma_scaled_bound(v: int, num: int, den: int, bound: int)
    requires
        -bound <= v <= bound,
        0 <= num,
        0 < den,
    ensures
        -(bound * num / den) <= scaled(v, num, den) <= bound * num / den,
        v >= 0 ==> scaled(v, num, den) >= 0,
        v <= 0 ==> scaled(v, num, den) <= 0,
{
    if v >= 0 {
        assert(v * num <= bound * num) by (nonlinear_arith)
            requires v <= bound, 0 <= num;
        assert(v * num >= 0) by (nonlinear_arith)
            requires v >= 0, 0 <= num;
        vstd::arithmetic::div_mod::lemma_div_is_ordered(v * num, bound * num, den);
        vstd::arithmetic::div_mod::lemma_div_pos_is_pos(v * num, den);
    } else {
        assert((-v) * num <= bound * num) by (nonlinear_arith)
            requires -v <= bound, 0 <= num;
        assert((-v) * num >= 0) by (nonlinear_arith)
            requires -v >= 0, 0 <= num;
        vstd::arithmetic::div_mod::lemma_div_is_ordered((-v) * num, bound * num, den);
        vstd::arithmetic::div_mod::lemma_div_pos_is_pos((-v) * num, den);
    }
}

/// Scaling by a ratio of at most one never moves a value away from zero.
pub proof fn lemma_scaled_shrinks(v: int, num: int, den: int)
    requires
        0 <= num <= den,
        0 < den,
    ensures
        -v <= scaled(v, num, den) <= v || v <= scaled(v, num, den) <= -v,
        v >= 0 ==> 0 <= scaled(v, num, den) <= v,
        v <= 0 ==> v <= scaled(v, num, den) <= 0,
{
    let a = if v >= 0 { v } else { -v };
    assert(a * num <= a * den) by (nonlinear_arith)
        requires a >= 0, num <= den;
    assert(a * num >= 0) by (nonlinear_arith)
        requires a >= 0, num >= 0;
    vstd::arithmetic::div_mod::lemma_div_is_ordered(a * num, a * den, den);
    vstd::arithmetic::div_mod::lemma_div_by_multiple(a, den);
    vstd::arithmetic::div_mod::lemma_div_pos_is_pos(a * num, den);
}

/// Computes `v * num / den`, rounded toward zero.
pub fn scale(v: i64, num: i64, den: i64) -> (r: i64)
    requires
        0 <= num,
        0 < den,
        -(i64::MAX as int) <= v * num <= i64::MAX,
        v > i64::MIN,
    ensures
        r == scaled(v as int, num as int, den as int),
{
    if v >= 0 {
        assert(v * num >= 0) by (nonlinear_arith)
            requires v >= 0, num >= 0;
        let p: i64 = v * num;
        p / den
    } else {
        assert((-v) * num == -(v * num)) by (nonlinear_arith);
        assert((-v) * num >= 0) by (nonlinear_arith)
            requires v < 0, num >= 0;
        let p: i64 = (-v) * num;
        let q: i64 = p / den;
        -q
    }
}

/// Brings `v` into `[lo, hi]`.
pub fn clamp(v: i64, lo: i64, hi: i64) -> (r: i64)
    requires
        lo <= hi,
    ensures
        r == clamped(v as int, lo as int, hi as int),
        lo <= r <= hi,
{
    if v < lo {
        lo
    } else if v > hi {
        hi
    } else {
        v
    }
}

} // verus!
