//! Fixed-point arithmetic shared by every quantity of the model.
//!
//! Pressures count millionths of their unit and every other scalar (a gas
//! fraction, a rate, an exponent) counts units of 10^-12. All of them are
//! machine integers, and every quotient is rounded to the nearest integer.
use vstd::prelude::*;

verus! {

/// The value 1 of a dimensionless scalar.
pub const ONE: i64 = 1_000_000_000_000;

/// Largest magnitude that `div_round` accepts as a numerator.
pub const NUMERATOR_LIMIT: i128 = 0x4000_0000_0000_0000_0000_0000_0000_0000;

/// Largest divisor that `div_round` accepts.
pub const DIVISOR_LIMIT: i128 = 0x1_0000_0000_0000_0000_0000;

/// The integer nearest to `n / d`, a tie going to the larger one.
pub open spec fn round_div(n: int, d: int) -> int {
    if 2 * (n % d) >= d {
        n / d + 1
    } else {
        n / d
    }
}

/// The least integer that is not less than `n / d`.
pub open spec fn ceil_div(n: int, d: int) -> int {
    (n + d - 1) / d
}

/// `v` brought into the range `lo..=hi`.
pub open spec fn clamp(v: int, lo: int, hi: int) -> int {
    if v < lo {
        lo
    } else if v > hi {
        hi
    } else {
        v
    }
}

/// `v` brought into the range of `i64`.
pub open spec fn saturate(v: int) -> int {
    clamp(v, i64::MIN as int, i64::MAX as int)
}

/// `v` brought into the range `0..=ONE`.
pub open spec fn unit_clamp(v: int) -> int {
    clamp(v, 0, ONE as int)
}

/// The rounded quotient is within half a divisor of the exact one.
pub proof fn lemma_round_div_nearest(n: int, d: int)
    requires
        d > 0,
    ensures
        -d <= 2 * (n - d * round_div(n, d)) < d,
{
    vstd::arithmetic::div_mod::lemma_fundamental_div_mod(n, d);
    vstd::arithmetic::div_mod::lemma_mod_bound(n, d);
    let q = n / d;
    assert(d * (q + 1) == d * q + d) by (nonlinear_arith);
}

/// Rounding keeps the order of the numerators.
pub proof fn lemma_round_div_monotone(a: int, b: int, d: int)
    requires
        d > 0,
        a <= b,
    ensures
        round_div(a, d) <= round_div(b, d),
{
    lemma_round_div_nearest(a, d);
    lemma_round_div_nearest(b, d);
    let qa = round_div(a, d);
    let qb = round_div(b, d);
    if qa > qb {
        assert(d * qa >= d * (qb + 1)) by (nonlinear_arith)
            requires
                qa >= qb + 1,
                d > 0,
        ;
        assert(d * (qb + 1) == d * qb + d) by (nonlinear_arith);
    }
}

/// A multiple of the divisor is divided exactly.
pub proof fn lemma_round_div_exact(k: int, d: int)
    requires
        d > 0,
    ensures
        round_div(k * d, d) == k,
{
    lemma_round_div_nearest(k * d, d);
    let q = round_div(k * d, d);
    assert(k * d - d * q == d * (k - q)) by (nonlinear_arith);
    if k - q >= 1 {
        assert(d * (k - q) >= d) by (nonlinear_arith)
            requires
                k - q >= 1,
                d > 0,
        ;
    }
    if k - q <= -1 {
        assert(d * (k - q) <= -d) by (nonlinear_arith)
            requires
                k - q <= -1,
                d > 0,
        ;
    }
}

/// The rounded quotient has the sign of the numerator, or is zero.
pub proof fn lemma_round_div_sign(n: int, d: int)
    requires
        d > 0,
    ensures
        n >= 0 ==> round_div(n, d) >= 0,
        n <= 0 ==> round_div(n, d) <= 0,
        n == 0 ==> round_div(n, d) == 0,
{
    lemma_round_div_exact(0, d);
    if n >= 0 {
        lemma_round_div_monotone(0, n, d);
    }
    if n <= 0 {
        lemma_round_div_monotone(n, 0, d);
    }
}

/// A numerator between two multiples of the divisor gives a quotient between
/// the two factors.
pub proof fn lemma_round_div_between(n: int, d: int, lo: int, hi: int)
    requires
        d > 0,
        lo * d <= n <= hi * d,
    ensures
        lo <= round_div(n, d) <= hi,
{
    lemma_round_div_exact(lo, d);
    lemma_round_div_exact(hi, d);
    lemma_round_div_monotone(lo * d, n, d);
    lemma_round_div_monotone(n, hi * d, d);
}

/// The product of two bounded factors is bounded by the product of the bounds.
pub proof fn lemma_product_bound(a: int, b: int, abound: int, bbound: int)
    requires
        -abound <= a <= abound,
        -bbound <= b <= bbound,
    ensures
        -(abound * bbound) <= a * b <= abound * bbound,
{
    assert(-(abound * bbound) <= a * b <= abound * bbound) by (nonlinear_arith)
        requires
            -abound <= a <= abound,
            -bbound <= b <= bbound,
    ;
}

/// Rounded division of machine integers.
pub(crate) fn div_round(n: i128, d: i128) -> (q: i128)
    requires
        0 < d <= DIVISOR_LIMIT,
        -NUMERATOR_LIMIT <= n <= NUMERATOR_LIMIT,
    ensures
        q == round_div(n as int, d as int),
        -NUMERATOR_LIMIT <= q <= NUMERATOR_LIMIT,
{
    let floor: i128 = if n >= 0 {
        n / d
    } else {
        let m: i128 = -n;
        let c: i128 = (m + d - 1) / d;
        assert(-c == (n as int) / (d as int)) by (nonlinear_arith)
            requires
                c == (m + d - 1) / (d as int),
                m == -n,
                d > 0,
                n < 0,
        ;
        -c
    };
    proof {
        vstd::arithmetic::div_mod::lemma_fundamental_div_mod(n as int, d as int);
        vstd::arithmetic::div_mod::lemma_mod_bound(n as int, d as int);
        lemma_round_div_nearest(n as int, d as int);
        assert(floor * d == d * floor) by (nonlinear_arith);
        assert(-NUMERATOR_LIMIT - 1 <= floor <= NUMERATOR_LIMIT) by (nonlinear_arith)
            requires
                0 <= n - d * floor < d,
                d > 0,
                -NUMERATOR_LIMIT <= n <= NUMERATOR_LIMIT,
        ;
        let q = round_div(n as int, d as int);
        assert(-NUMERATOR_LIMIT <= q <= NUMERATOR_LIMIT) by (nonlinear_arith)
            requires
                -d <= 2 * (n - d * q) < d,
                d > 0,
                -NUMERATOR_LIMIT <= n <= NUMERATOR_LIMIT,
        ;
    }
    let rest: i128 = n - floor * d;
    if 2 * rest >= d {
        floor + 1
    } else {
        floor
    }
}

/// Division of machine integers, rounded up.
pub(crate) fn div_ceil(n: i128, d: i128) -> (q: i128)
    requires
        0 < d <= DIVISOR_LIMIT,
        0 <= n <= NUMERATOR_LIMIT,
    ensures
        q == ceil_div(n as int, d as int),
        0 <= q <= n,
{
    let q: i128 = (n + d - 1) / d;
    proof {
        vstd::arithmetic::div_mod::lemma_fundamental_div_mod(n + d - 1, d as int);
        vstd::arithmetic::div_mod::lemma_mod_bound(n + d - 1, d as int);
        assert(0 <= q <= n) by (nonlinear_arith)
            requires
                n + d - 1 == d * q + (n + d - 1) % (d as int),
                0 <= (n + d - 1) % (d as int) < d,
                d > 0,
                n >= 0,
        ;
    }
    q
}

/// A wide integer brought into the range of `i64`.
pub(crate) fn saturate_i64(v: i128) -> (r: i64)
    ensures
        r == saturate(v as int),
{
    if v < i64::MIN as i128 {
        i64::MIN
    } else if v > i64::MAX as i128 {
        i64::MAX
    } else {
        v as i64
    }
}

/// `a * b / d`, rounded, then brought into the range of `i64`.
pub(crate) fn mul_div(a: i64, b: i64, d: i64) -> (r: i64)
    requires
        d > 0,
    ensures
        r == saturate(round_div(a * b, d as int)),
{
    proof {
        lemma_product_bound(a as int, b as int, 0x8000_0000_0000_0000, 0x8000_0000_0000_0000);
    }
    let wide: i128 = (a as i128) * (b as i128);
    saturate_i64(div_round(wide, d as i128))
}

} // verus!
