//! Fixed-point arithmetic: a quantity is held as the whole number of its
//! `10^-12` parts, so that `ONE` stands for 1. Products, quotients and square
//! roots are rounded towards minus infinity to the next such part.

use vstd::prelude::*;
use vstd::arithmetic::div_mod::{
    lemma_fundamental_div_mod,
    lemma_fundamental_div_mod_converse,
    lemma_mod_bound,
};

verus! {

/// The number of parts that make one unit.
pub const ONE: i128 = 1_000_000_000_000;

/// The largest whole number whose square an `i128` holds.
pub const ROOT_MAX: i128 = 13_043_817_825_332_782_212;

/// The quotient of `n` by a divisor other than zero, rounded towards minus
/// infinity whatever the divisor's sign.
pub open spec fn ratio_spec(n: int, d: int) -> int {
    if d > 0 {
        n / d
    } else {
        (-n) / (-d)
    }
}

/// The product of two quantities.
pub open spec fn mul_spec(a: int, b: int) -> int {
    (a * b) / (ONE as int)
}

/// The quotient of two quantities.
pub open spec fn div_spec(a: int, b: int) -> int {
    ratio_spec(a * ONE, b)
}

/// `a * b / c` with a single rounding.
pub open spec fn mul_div_spec(a: int, b: int, c: int) -> int {
    ratio_spec(a * b, c)
}

/// The whole number next to a quantity on the side of zero.
pub open spec fn trunc_spec(a: int) -> int {
    if a >= 0 {
        a / (ONE as int)
    } else {
        -((-a) / (ONE as int))
    }
}

/// The whole number nearest to a quantity; of two that are equally near,
/// the one farther from zero.
pub open spec fn round_spec(a: int) -> int {
    if a >= 0 {
        (a + ONE / 2) / (ONE as int)
    } else {
        -((-a + ONE / 2) / (ONE as int))
    }
}

/// `r` is the whole part of the square root of `n`.
pub open spec fn is_floor_sqrt(n: int, r: int) -> bool {
    0 <= r && r * r <= n && n < (r + 1) * (r + 1)
}

/// The whole part of the square root of `n`, for `n >= 0`.
pub open spec fn floor_sqrt(n: int) -> int {
    choose|r: int| is_floor_sqrt(n, r)
}

/// The square root of a quantity.
pub open spec fn sqrt_spec(a: int) -> int {
    floor_sqrt(a * ONE)
}

/// The quotient `n / d` lies at most one divisor below `n`.
pub proof fn lemma_floor_bounds(n: int, d: int)
    requires
        d > 0,
    ensures
        (n / d) * d <= n < (n / d) * d + d,
{
    lemma_fundamental_div_mod(n, d);
    lemma_mod_bound(n, d);
    assert(d * (n / d) == (n / d) * d) by (nonlinear_arith);
}

/// Only one whole number `q` has `q * d <= n < (q + 1) * d`: the quotient.
pub proof fn lemma_floor_unique(n: int, d: int, q: int)
    requires
        d > 0,
        q * d <= n < q * d + d,
    ensures
        n / d == q,
{
    lemma_fundamental_div_mod_converse(n, d, q, n - q * d);
}

/// A product is no larger than the product of its factors' bounds.
pub proof fn lemma_mul_bound(a: int, b: int, x: int, y: int)
    requires
        -x <= a <= x,
        -y <= b <= y,
    ensures
        -(x * y) <= a * b <= x * y,
{
    assert(-(x * y) <= a * b <= x * y) by (nonlinear_arith)
        requires
            -x <= a <= x,
            -y <= b <= y,
    ;
}

/// A quotient is no larger than what is divided.
pub proof fn lemma_ratio_bound(n: int, d: int, x: int)
    requires
        d != 0,
        -x <= n <= x,
    ensures
        -x <= ratio_spec(n, d) <= x,
{
    let p = if d > 0 { d } else { -d };
    let m = if d > 0 { n } else { -n };
    lemma_floor_bounds(m, p);
    let q = m / p;
    assert(-x <= q <= x) by (nonlinear_arith)
        requires
            p >= 1,
            q * p <= m < q * p + p,
            -x <= m <= x,
    ;
}

/// The sign of a quotient by a positive divisor is that of what is divided.
pub proof fn lemma_ratio_sign(n: int, d: int)
    requires
        d > 0,
    ensures
        n >= 0 <==> n / d >= 0,
        n >= d <==> n / d >= 1,
{
    lemma_floor_bounds(n, d);
    let q = n / d;
    assert((n >= 0 <==> q >= 0) && (n >= d <==> q >= 1)) by (nonlinear_arith)
        requires
            d > 0,
            q * d <= n < q * d + d,
    ;
}

/// A number under `(x + 1) * d` has a quotient of at most `x`.
pub proof fn lemma_div_upper(n: int, d: int, x: int)
    requires
        d > 0,
        n < (x + 1) * d,
    ensures
        n / d <= x,
{
    lemma_floor_bounds(n, d);
    let q = n / d;
    assert(q <= x) by (nonlinear_arith)
        requires
            d > 0,
            q * d <= n,
            n < (x + 1) * d,
    ;
}

/// A number from `x * d` on has a quotient of at least `x`.
pub proof fn lemma_div_lower(n: int, d: int, x: int)
    requires
        d > 0,
        n >= x * d,
    ensures
        n / d >= x,
{
    lemma_floor_bounds(n, d);
    let q = n / d;
    assert(q >= x) by (nonlinear_arith)
        requires
            d > 0,
            n < q * d + d,
            n >= x * d,
    ;
}

/// A number smaller in size than `d * ONE` has a quotient by `d` from `-ONE`
/// to under `ONE`.
pub proof fn lemma_fraction_bound(n: int, d: int)
    requires
        d > 0,
        -(d * ONE) < n < d * ONE,
    ensures
        -ONE <= n / d < ONE,
{
    lemma_floor_bounds(n, d);
    let q = n / d;
    assert(-1_000_000_000_000 <= q < 1_000_000_000_000) by (nonlinear_arith)
        requires
            d > 0,
            q * d <= n < q * d + d,
            -(d * 1_000_000_000_000) < n < d * 1_000_000_000_000,
    ;
}

/// The product of two quantities from -1 to 1 lies from -1 to 1.
pub proof fn lemma_mul_unit(a: int, b: int)
    requires
        -ONE <= a <= ONE,
        -ONE <= b <= ONE,
    ensures
        -ONE <= mul_spec(a, b) <= ONE,
        -(ONE * ONE) <= a * b <= ONE * ONE,
{
    lemma_mul_bound(a, b, ONE as int, ONE as int);
}

/// No number has two whole square roots.
pub proof fn lemma_floor_sqrt_unique(n: int, r1: int, r2: int)
    requires
        is_floor_sqrt(n, r1),
        is_floor_sqrt(n, r2),
    ensures
        r1 == r2,
{
    assert(r1 == r2) by (nonlinear_arith)
        requires
            0 <= r1,
            r1 * r1 <= n,
            n < (r1 + 1) * (r1 + 1),
            0 <= r2,
            r2 * r2 <= n,
            n < (r2 + 1) * (r2 + 1),
    ;
}

/// Every number from zero on has a whole square root, and `floor_sqrt` is it.
pub proof fn lemma_floor_sqrt_exists(n: int)
    requires
        n >= 0,
    ensures
        is_floor_sqrt(n, floor_sqrt(n)),
    decreases n,
{
    if n == 0 {
        assert(is_floor_sqrt(0, 0));
    } else {
        lemma_floor_sqrt_exists(n - 1);
        let r = floor_sqrt(n - 1);
        if (r + 1) * (r + 1) <= n {
            assert(is_floor_sqrt(n, r + 1)) by (nonlinear_arith)
                requires
                    0 <= r,
                    r * r <= n - 1,
                    n - 1 < (r + 1) * (r + 1),
                    (r + 1) * (r + 1) <= n,
            ;
        } else {
            assert(is_floor_sqrt(n, r));
        }
    }
}

/// A number under `(b + 1)^2` has a whole square root of at most `b`.
pub proof fn lemma_sqrt_upper(n: int, b: int)
    requires
        0 <= n,
        0 <= b,
        n < (b + 1) * (b + 1),
    ensures
        0 <= floor_sqrt(n) <= b,
{
    lemma_floor_sqrt_exists(n);
    let r = floor_sqrt(n);
    assert(r <= b) by (nonlinear_arith)
        requires
            0 <= r,
            0 <= b,
            r * r <= n,
            n < (b + 1) * (b + 1),
    ;
}

/// `n / d` rounded towards minus infinity.
pub fn floor_div(n: i128, d: i128) -> (q: i128)
    requires
        d > 0,
        n > i128::MIN,
    ensures
        q == n / d,
{
    if n >= 0 {
        n / d
    } else {
        let p: i128 = -n;
        let q: i128 = p / d;
        let r: i128 = p % d;
        proof {
            lemma_floor_bounds(p as int, d as int);
            lemma_fundamental_div_mod(p as int, d as int);
            assert(d * q == q * d) by (nonlinear_arith);
        }
        if r == 0 {
            proof {
                assert((-q) * d == -(q * d)) by (nonlinear_arith);
                lemma_floor_unique(n as int, d as int, -q);
            }
            -q
        } else {
            proof {
                assert((-q - 1) * d == -(q * d) - d) by (nonlinear_arith);
                lemma_floor_unique(n as int, d as int, -q - 1);
            }
            -q - 1
        }
    }
}

/// The quotient of `n` by `d`, rounded towards minus infinity.
pub fn ratio(n: i128, d: i128) -> (q: i128)
    requires
        d != 0,
        n > i128::MIN,
        d > i128::MIN,
    ensures
        q == ratio_spec(n as int, d as int),
{
    if d > 0 {
        floor_div(n, d)
    } else {
        floor_div(-n, -d)
    }
}

/// The product of two quantities, where the product of their parts fits.
pub fn fx_mul(a: i128, b: i128) -> (r: i128)
    requires
        i128::MIN < a * b <= i128::MAX,
    ensures
        r == mul_spec(a as int, b as int),
{
    floor_div(a * b, ONE)
}

/// The quotient of two quantities, where `a * ONE` fits.
pub fn fx_div(a: i128, b: i128) -> (r: i128)
    requires
        b != 0,
        b > i128::MIN,
        i128::MIN < a * ONE <= i128::MAX,
    ensures
        r == div_spec(a as int, b as int),
{
    ratio(a * ONE, b)
}

/// `a * b / c` with a single rounding, where `a * b` fits.
pub fn fx_mul_div(a: i128, b: i128, c: i128) -> (r: i128)
    requires
        c != 0,
        c > i128::MIN,
        i128::MIN < a * b <= i128::MAX,
    ensures
        r == mul_div_spec(a as int, b as int, c as int),
{
    ratio(a * b, c)
}

/// The whole number next to the quantity `a` on the side of zero.
pub fn trunc(a: i128) -> (r: i128)
    ensures
        r == trunc_spec(a as int),
{
    if a >= 0 {
        a / ONE
    } else {
        floor_div(a + (ONE - 1), ONE)
    }
}

/// The whole number nearest to the quantity `a`; of two that are equally
/// near, the one farther from zero.
pub fn round(a: i128) -> (r: i128)
    ensures
        r == round_spec(a as int),
{
    if a >= 0 {
        if a % ONE >= ONE / 2 {
            a / ONE + 1
        } else {
            a / ONE
        }
    } else {
        floor_div(a + (ONE / 2 - 1), ONE)
    }
}

/// The whole part of the square root of `n`.
pub fn isqrt(n: i128) -> (r: i128)
    requires
        n >= 0,
    ensures
        r == floor_sqrt(n as int),
        is_floor_sqrt(n as int, r as int),
{
    let mut lo: i128 = 0;
    let mut hi: i128 = ROOT_MAX + 1;
    assert(n < hi * hi) by (nonlinear_arith)
        requires
            hi == 13_043_817_825_332_782_213,
            n <= i128::MAX,
    ;
    while hi - lo > 1
        invariant
            0 <= lo < hi <= ROOT_MAX + 1,
            lo * lo <= n < hi * hi,
        decreases hi - lo,
    {
        let mid: i128 = lo + (hi - lo) / 2;
        assert(0 <= mid * mid <= i128::MAX) by (nonlinear_arith)
            requires
                0 <= mid <= 13_043_817_825_332_782_212,
        ;
        if mid * mid <= n {
            lo = mid;
        } else {
            hi = mid;
        }
    }
    proof {
        assert(is_floor_sqrt(n as int, lo as int));
        lemma_floor_sqrt_exists(n as int);
        lemma_floor_sqrt_unique(n as int, lo as int, floor_sqrt(n as int));
    }
    lo
}

/// The square root of a quantity that is not negative, where `a * ONE` fits.
pub fn fx_sqrt(a: i128) -> (r: i128)
    requires
        a >= 0,
        a * ONE <= i128::MAX,
    ensures
        r == sqrt_spec(a as int),
        is_floor_sqrt(a * ONE, r as int),
{
    isqrt(a * ONE)
}

} // verus!
