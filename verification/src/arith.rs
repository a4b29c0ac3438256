//! Rounded division and integer square root: the two arithmetic primitives
//! every indicator's output is defined with.

use vstd::prelude::*;

verus! {

/// Scale of the fixed-point representation: one unit is `SCALE` millionths.
pub const SCALE: i128 = 1_000_000;

/// Largest magnitude, in millionths, accepted as an indicator input value.
pub const INPUT_LIMIT: i128 = 1_000_000_000_000_000;

/// Largest window length any count-windowed indicator may be built with.
pub const PERIOD_LIMIT: usize = 1_000_000;

/// Largest numerator magnitude (and denominator) the rounded division
/// accepts; keeps `2 * a + b` inside `i128`.
pub const RDIV_LIMIT: i128 = 10_000_000_000_000_000_000_000_000_000_000_000_000;

/// Quotient of `a / b` rounded to the nearest integer, ties away from zero.
pub open spec fn rdiv(a: int, b: int) -> int
    recommends
        b > 0,
{
    if a >= 0 {
        (2 * a + b) / (2 * b)
    } else {
        -((2 * (-a) + b) / (2 * b))
    }
}

/// `rdiv` with a divisor of either sign: the quotient keeps the usual sign
/// rule, and only a zero divisor is excluded.
pub open spec fn rdiv_signed(a: int, b: int) -> int
    recommends
        b != 0,
{
    if b > 0 {
        rdiv(a, b)
    } else {
        rdiv(-a, -b)
    }
}

proof fn lemma_div_in_range(x: int, d: int, m: int)
    requires
        d >= 1,
        0 <= x,
        x < d * (m + 1),
    ensures
        0 <= x / d <= m,
{
    assert(0 <= x / d <= m) by (nonlinear_arith)
        requires
            d >= 1,
            0 <= x,
            x < d * (m + 1),
    {
    }
}

/// Rounding to the nearest integer never leaves an interval `[-m, m]`
/// that the exact quotient lies in.
pub proof fn lemma_rdiv_bound(a: int, b: int, m: int)
    requires
        b >= 1,
        m >= 0,
        -(b * m) <= a <= b * m,
    ensures
        -m <= rdiv(a, b) <= m,
{
    if a >= 0 {
        assert(2 * a + b < (2 * b) * (m + 1)) by (nonlinear_arith)
            requires
                b >= 1,
                m >= 0,
                a <= b * m,
        {
        }
        lemma_div_in_range(2 * a + b, 2 * b, m);
    } else {
        assert(2 * (-a) + b < (2 * b) * (m + 1)) by (nonlinear_arith)
            requires
                b >= 1,
                m >= 0,
                -(b * m) <= a,
        {
        }
        lemma_div_in_range(2 * (-a) + b, 2 * b, m);
    }
}

/// A non-negative dividend gives a non-negative rounded quotient.
pub proof fn lemma_rdiv_nonneg(a: int, b: int)
    requires
        b >= 1,
        a >= 0,
    ensures
        rdiv(a, b) >= 0,
{
    assert((2 * a + b) / (2 * b) >= 0) by (nonlinear_arith)
        requires
            b >= 1,
            a >= 0,
    {
    }
}

/// An upper bound on the dividend bounds the rounded quotient.
pub proof fn lemma_rdiv_le(a: int, b: int, m: int)
    requires
        b >= 1,
        m >= 0,
        0 <= a <= b * m,
    ensures
        0 <= rdiv(a, b) <= m,
{
    lemma_rdiv_bound(a, b, m);
    lemma_rdiv_nonneg(a, b);
}

/// Dividing an exact multiple rounds to the exact quotient.
pub proof fn lemma_rdiv_exact(k: int, b: int)
    requires
        b >= 1,
    ensures
        rdiv(k * b, b) == k,
{
    if k >= 0 {
        assert(k * b >= 0) by (nonlinear_arith)
            requires
                b >= 1,
                k >= 0,
        {
        }
        assert((2 * (k * b) + b) / (2 * b) == k) by (nonlinear_arith)
            requires
                b >= 1,
                k >= 0,
        {
        }
    } else {
        assert(k * b < 0) by (nonlinear_arith)
            requires
                b >= 1,
                k < 0,
        {
        }
        assert((2 * (-(k * b)) + b) / (2 * b) == -k) by (nonlinear_arith)
            requires
                b >= 1,
                k < 0,
        {
        }
    }
}

/// Largest integer whose square does not exceed `x` (zero for negative `x`).
pub open spec fn sqrt_floor(x: int) -> int
    decreases x,
{
    if x < 1 {
        0
    } else {
        let p = sqrt_floor(x - 1);
        if (p + 1) * (p + 1) <= x {
            p + 1
        } else {
            p
        }
    }
}

/// `sqrt_floor(x)` is the floor of the square root of `x`.
pub proof fn lemma_sqrt_floor_props(x: int)
    requires
        x >= 0,
    ensures
        0 <= sqrt_floor(x),
        sqrt_floor(x) * sqrt_floor(x) <= x,
        x < (sqrt_floor(x) + 1) * (sqrt_floor(x) + 1),
    decreases x,
{
    if x >= 1 {
        lemma_sqrt_floor_props(x - 1);
        let p = sqrt_floor(x - 1);
        if (p + 1) * (p + 1) <= x {
            assert(x < ((p + 1) + 1) * ((p + 1) + 1)) by (nonlinear_arith)
                requires
                    x - 1 < (p + 1) * (p + 1),
                    p >= 0,
            {
            }
        }
    }
}

/// Any `r` with `r^2 <= x < (r + 1)^2` is `sqrt_floor(x)`.
pub proof fn lemma_sqrt_floor_unique(x: int, r: int)
    requires
        0 <= r,
        r * r <= x,
        x < (r + 1) * (r + 1),
    ensures
        r == sqrt_floor(x),
{
    lemma_sqrt_floor_props(x);
    let s = sqrt_floor(x);
    assert(r == s) by (nonlinear_arith)
        requires
            0 <= r,
            0 <= s,
            r * r <= x,
            x < (r + 1) * (r + 1),
            s * s <= x,
            x < (s + 1) * (s + 1),
    {
    }
}

/// Rounded division of `a` by `b`, nearest integer, ties away from zero.
pub fn rdiv_i128(a: i128, b: i128) -> (r: i128)
    requires
        1 <= b <= RDIV_LIMIT,
        -RDIV_LIMIT <= a <= RDIV_LIMIT,
    ensures
        r == rdiv(a as int, b as int),
{
    if a >= 0 {
        (2 * a + b) / (2 * b)
    } else {
        -((2 * (-a) + b) / (2 * b))
    }
}

/// Signed-divisor rounded division; only `b == 0` is excluded.
pub fn rdiv_signed_i128(a: i128, b: i128) -> (r: i128)
    requires
        b != 0,
        -RDIV_LIMIT <= b <= RDIV_LIMIT,
        -RDIV_LIMIT <= a <= RDIV_LIMIT,
    ensures
        r == rdiv_signed(a as int, b as int),
{
    if b > 0 {
        rdiv_i128(a, b)
    } else {
        rdiv_i128(-a, -b)
    }
}

/// Integer square root: the unique `r >= 0` with `r * r <= x < (r + 1)^2`.
pub fn isqrt_i128(x: i128) -> (r: i128)
    requires
        0 <= x <= 10_000_000_000_000_000_000_000_000_000_000,
    ensures
        0 <= r,
        r * r <= x,
        x < (r + 1) * (r + 1),
{
    let mut lo: i128 = 0;
    let mut hi: i128 = 10_000_000_000_000_000;
    assert(hi * hi > x);
    while lo + 1 < hi
        invariant
            0 <= lo < hi <= 10_000_000_000_000_000,
            lo * lo <= x,
            x < hi * hi,
        decreases hi - lo,
    {
        let mid: i128 = lo + (hi - lo) / 2;
        assert(mid * mid <= 100_000_000_000_000_000_000_000_000_000_000) by (nonlinear_arith)
            requires
                0 <= mid <= 10_000_000_000_000_000,
        {
        }
        if mid * mid <= x {
            lo = mid;
        } else {
            hi = mid;
        }
    }
    lo
}

} // verus!
