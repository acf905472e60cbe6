//! Small fixed-point arithmetic helpers shared by the synthesis pipeline.
//!
//! Signed division here always truncates toward zero (like Rust's `/` on
//! machine integers); the spec functions state that behaviour explicitly in
//! terms of Euclidean division on non-negative operands.

use vstd::prelude::*;

verus! {

/// `v` clamped into `[lo, hi]`.
pub open spec fn spec_clamp64(lo: int, hi: int, v: int) -> int {
    if v < lo {
        lo
    } else if v > hi {
        hi
    } else {
        v
    }
}

/// Clamp `v` into `[lo, hi]`.
pub fn clamp64(lo: i64, hi: i64, v: i64) -> (r: i64)
    requires
        lo <= hi,
    ensures
        r == spec_clamp64(lo as int, hi as int, v as int),
        lo <= r <= hi,
{
    if v < lo {
        lo
    } else if v > hi {
        hi
    } else {
        v
    }
}

/// Quotient of `a / b` truncated toward zero, for a positive divisor.
pub open spec fn spec_tdiv64(a: int, b: int) -> int
    recommends
        b > 0,
{
    if a >= 0 {
        a / b
    } else {
        -((-a) / b)
    }
}

/// Signed division truncating toward zero.
pub fn tdiv64(a: i64, b: i64) -> (q: i64)
    requires
        b > 0,
        a > i64::MIN,
    ensures
        q == spec_tdiv64(a as int, b as int),
        a >= 0 ==> 0 <= q <= a,
        a < 0 ==> a <= q <= 0,
{
    if a >= 0 {
        a / b
    } else {
        let n = -a;
        -(n / b)
    }
}

/// `a / b` rounded to the nearest integer (half up), for non-negative `a`.
pub open spec fn spec_round_div(a: int, b: int) -> int
    recommends
        a >= 0,
        b > 0,
{
    (a + b / 2) / b
}

/// Rounding division of non-negative `a` by positive `b`.
pub fn round_div64(a: i64, b: i64) -> (q: i64)
    requires
        0 <= a,
        0 < b,
        a + b / 2 <= i64::MAX,
    ensures
        q == spec_round_div(a as int, b as int),
        0 <= q,
{
    (a + b / 2) / b
}

/// `a / b` rounded to the nearest integer, half away from zero.
pub open spec fn spec_round_div_s(a: int, b: int) -> int
    recommends
        b > 0,
{
    if a >= 0 {
        (a + b / 2) / b
    } else {
        -(((-a) + b / 2) / b)
    }
}

/// Signed rounding division by a positive divisor.
pub fn round_div_s(a: i64, b: i64) -> (q: i64)
    requires
        0 < b,
        i64::MIN + b < a,
        a + b <= i64::MAX,
    ensures
        q == spec_round_div_s(a as int, b as int),
{
    if a >= 0 {
        (a + b / 2) / b
    } else {
        let n = -a;
        -((n + b / 2) / b)
    }
}

/// `v` rounded to the nearest multiple of `step`, half away from zero.
pub open spec fn spec_round_to(v: int, step: int) -> int
    recommends
        step > 0,
{
    if v >= 0 {
        ((v + step / 2) / step) * step
    } else {
        -((((-v) + step / 2) / step) * step)
    }
}

/// Round `v` to the nearest multiple of `step`, half away from zero.
pub fn round_to(v: i64, step: i64) -> (r: i64)
    requires
        0 < step,
        v > i64::MIN,
        v + step <= i64::MAX,
        v - step >= i64::MIN,
    ensures
        r == spec_round_to(v as int, step as int),
{
    if v >= 0 {
        proof {
            lemma_round_to_near(v as int, step as int);
        }
        ((v + step / 2) / step) * step
    } else {
        let n = -v;
        proof {
            lemma_round_to_near(n as int, step as int);
        }
        -((n + step / 2) / step * step)
    }
}

/// Quotient truncated toward zero for any non-zero divisor.
pub open spec fn spec_div_trunc(a: int, b: int) -> int
    recommends
        b != 0,
{
    if b > 0 {
        spec_tdiv64(a, b)
    } else {
        spec_tdiv64(-a, -b)
    }
}

/// Signed division truncating toward zero, for any non-zero divisor.
pub fn div_trunc(a: i64, b: i64) -> (q: i64)
    requires
        b != 0,
        i64::MIN < a,
        i64::MIN < b,
    ensures
        q == spec_div_trunc(a as int, b as int),
        -(if a >= 0 { a as int } else { -(a as int) }) <= q <= (if a >= 0 {
            a as int
        } else {
            -(a as int)
        }),
{
    if b > 0 {
        tdiv64(a, b)
    } else {
        tdiv64(-a, -b)
    }
}

/// Division by a positive constant respects interval bounds.
pub proof fn lemma_div_bounds(a: int, lo: int, hi: int, d: int)
    requires
        lo <= a <= hi,
        d > 0,
    ensures
        lo / d <= a / d <= hi / d,
{
    vstd::arithmetic::div_mod::lemma_div_is_ordered(lo, a, d);
    vstd::arithmetic::div_mod::lemma_div_is_ordered(a, hi, d);
}

/// A non-negative numerator at most `k * d` divides by `d` to at most `k`.
pub proof fn lemma_div_le_factor(num: int, k: int, d: int)
    requires
        0 <= num,
        num <= k * d,
        0 < d,
    ensures
        0 <= num / d <= k,
{
    vstd::arithmetic::div_mod::lemma_div_pos_is_pos(num, d);
    vstd::arithmetic::div_mod::lemma_div_is_ordered(num, k * d, d);
    vstd::arithmetic::div_mod::lemma_div_multiples_vanish(k, d);
    vstd::arithmetic::mul::lemma_mul_is_commutative(k, d);
}

/// A numerator of magnitude at most `k * d` truncate-divides by `d` to a
/// quotient of magnitude at most `k`.
pub proof fn lemma_tdiv_bound(a: int, k: int, d: int)
    requires
        -(k * d) <= a <= k * d,
        0 <= k,
        0 < d,
    ensures
        -k <= spec_tdiv64(a, d) <= k,
{
    if a >= 0 {
        lemma_div_le_factor(a, k, d);
    } else {
        assert(-(k * d) <= a ==> -a <= k * d) by (nonlinear_arith);
        lemma_div_le_factor(-a, k, d);
    }
}

/// Truncating division moves a value toward zero by a factor bounded by the
/// numerator's own span: the quotient of `d * lo <= a <= d * hi` by `d` lies
/// in `[lo, hi]` when `lo <= 0 <= hi`.
pub proof fn lemma_tdiv_between(a: int, lo: int, hi: int, d: int)
    requires
        lo * d <= a <= hi * d,
        lo <= 0 <= hi,
        0 < d,
    ensures
        lo <= spec_tdiv64(a, d) <= hi,
{
    if a >= 0 {
        lemma_div_le_factor(a, hi, d);
    } else {
        assert((-lo) * d == -(lo * d)) by (nonlinear_arith);
        lemma_div_le_factor(-a, -lo, d);
    }
}

/// Scaling a proper fraction `x / m` into `2^32` parts stays below `2^32`.
pub proof fn lemma_frac_scale_bound(x: int, m: int)
    requires
        0 <= x < m,
        m <= 0x1_0000_0000,
    ensures
        0 <= (x * 0x1_0000_0000) / m < 0x1_0000_0000,
{
    assert(x * 0x1_0000_0000 <= (0x1_0000_0000 - 1) * m) by (nonlinear_arith)
        requires
            0 <= x < m,
            m <= 0x1_0000_0000,
    ;
    lemma_div_le_factor(x * 0x1_0000_0000, 0x1_0000_0000 - 1, m);
    assert(x * 0x1_0000_0000 >= 0) by (nonlinear_arith)
        requires
            0 <= x,
    ;
}

/// Rounding a non-negative value to a multiple of `step` moves it by at most
/// half a step upward, which bounds the machine arithmetic in `round_to`.
proof fn lemma_round_to_near(v: int, step: int)
    requires
        v >= 0,
        step > 0,
    ensures
        0 <= ((v + step / 2) / step) * step <= v + step / 2,
{
    let h = step / 2;
    let x = v + h;
    let q = x / step;
    vstd::arithmetic::div_mod::lemma_div_pos_is_pos(x, step);
    vstd::arithmetic::div_mod::lemma_fundamental_div_mod(x, step);
    vstd::arithmetic::div_mod::lemma_mod_bound(x, step);
    vstd::arithmetic::mul::lemma_mul_is_commutative(q, step);
    assert(step * q + x % step == x);
    assert(q * step <= x);
    assert(x <= v + step / 2);
    assert(0 <= q * step) by (nonlinear_arith)
        requires
            q >= 0,
            step > 0,
    ;
}

} // verus!
