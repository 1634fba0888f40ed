//! The gas exchange of one tissue compartment with one inert gas.
//!
//! The tension `p0` of the gas in the compartment moves towards the pressure
//! `p_inspired` at which the gas is breathed. The exponential law lets the
//! difference decay with the compartment's rate constant. The
//! linear-exponential law follows the exponential law up to the crossover,
//! the time at which that trajectory meets the M-value `m`, and from there a
//! straight line with the slope of the trajectory at the crossover.
//!
//! Two values come from outside, because they take the exponential function
//! and the logarithm: the retention, `exp(-x)` for a decay exponent `x`, and
//! the crossover exponent, `-ln(q)` for a crossover ratio `q`. Every function
//! here is defined for whatever value is handed to it.
use vstd::prelude::*;
use crate::depth_utils::MILLIS_PER_MINUTE;
use crate::fixed::{
    ceil_div, clamp, div_ceil, div_round, lemma_product_bound, lemma_round_div_between,
    lemma_round_div_sign, round_div, saturate, saturate_i64, unit_clamp, ONE,
};
use crate::mptt::{Tissue, RATE_LIMIT};
use crate::pressure_unit::Pa;

verus! {

/// Largest decay exponent and largest crossover exponent, in units of
/// 10^-12.
pub const EXPONENT_LIMIT: i64 = 1_000_000_000_000_000_000;

/// How the exponential trajectory of a compartment lies to the M-value.
#[derive(Clone, Copy, Debug, PartialEq, Eq, Structural)]
pub enum Crossing {
    /// The trajectory never meets the M-value.
    Never,
    /// The trajectory met the M-value in the past, or meets it now.
    Past,
    /// The trajectory meets the M-value at a time to come.
    Ahead,
}

/// `v` brought into the range of an exponent.
pub open spec fn exponent_clamp(v: int) -> int {
    clamp(v, 0, EXPONENT_LIMIT as int)
}

/// A function from outside that can be called on every argument.
pub open spec fn total<F: Fn(i64) -> i64>(f: F) -> bool {
    forall|x: i64| call_requires(f, (x,))
}

/// The decay exponent of a compartment with rate constant `rate` (units of
/// 10^-12 per minute) over `dt_ms` milliseconds: the rate times the time, in
/// units of 10^-12, and no more than `EXPONENT_LIMIT`.
pub open spec fn spec_decay_exponent(rate: int, dt_ms: int) -> int {
    clamp(round_div(rate * dt_ms, MILLIS_PER_MINUTE as int), 0, EXPONENT_LIMIT as int)
}

/// `rho` is the retention for the decay exponent `x` as `exp_neg` gives it:
/// one for an exponent of zero, else a result of `exp_neg(x)` brought into
/// the range from zero to one.
pub open spec fn retention_of<F: Fn(i64) -> i64>(exp_neg: F, x: i64, rho: int) -> bool {
    if x == 0 {
        rho == ONE
    } else {
        exists|y: i64| #[trigger] call_ensures(exp_neg, (x,), y) && rho == unit_clamp(y as int)
    }
}

/// `l` is the crossover exponent for the crossover ratio `q` as `neg_ln`
/// gives it: zero for a ratio of one, else a result of `neg_ln(q)` brought
/// into the range from zero to `EXPONENT_LIMIT`.
pub open spec fn crossover_of<F: Fn(i64) -> i64>(neg_ln: F, q: i64, l: int) -> bool {
    if q == ONE {
        l == 0
    } else {
        exists|y: i64| #[trigger]
            call_ensures(neg_ln, (q,), y) && l == exponent_clamp(y as int)
    }
}

/// The tension after a step of the exponential law: the difference to the
/// inspired pressure shrinks to the part `retention` of itself.
pub open spec fn exponential_step(p0: int, p_inspired: int, retention: int) -> int {
    p0 + round_div((p_inspired - p0) * (ONE - unit_clamp(retention)), ONE as int)
}

/// How the exponential trajectory from `p0` towards `p_inspired` lies to the
/// M-value `m`. The crossover ratio is `(m - p_inspired) / (p0 -
/// p_inspired)`: the trajectory meets `m` at a time to come where the ratio
/// lies strictly between zero and one, it has met it where the ratio is one
/// or more, and it never does where the ratio is zero, negative or
/// undefined.
pub open spec fn crossing(p0: int, p_inspired: int, m: int) -> Crossing {
    let a = m - p_inspired;
    let b = p0 - p_inspired;
    if b > 0 && a > 0 {
        if a >= b {
            Crossing::Past
        } else {
            Crossing::Ahead
        }
    } else if b < 0 && a < 0 {
        if a <= b {
            Crossing::Past
        } else {
            Crossing::Ahead
        }
    } else {
        Crossing::Never
    }
}

/// The crossover ratio `(m - p_inspired) / (p0 - p_inspired)` in units of
/// 10^-12, where the crossing lies ahead; it is at least one step, so that it
/// has a logarithm. Zero where no crossing lies ahead.
pub open spec fn crossover_ratio(p0: int, p_inspired: int, m: int) -> int {
    if crossing(p0, p_inspired, m) == Crossing::Ahead {
        let a = m - p_inspired;
        let b = p0 - p_inspired;
        if b > 0 {
            clamp(round_div(a * ONE, b), 1, ONE as int)
        } else {
            clamp(round_div(-a * ONE, -b), 1, ONE as int)
        }
    } else {
        0
    }
}

/// The tension after a step on the straight line from `p0`: the slope is the
/// rate constant times `m - p_inspired`, and `x` is the rate constant times
/// the time.
pub open spec fn linear_step(p0: int, p_inspired: int, m: int, x: int) -> int {
    saturate(p0 - round_div((m - p_inspired) * x, ONE as int))
}

/// The tension after the exponential trajectory has met `m` and the straight
/// line has been followed for the rest of the time: `x` is the rate constant
/// times the whole time, `l` the rate constant times the time of the
/// crossover.
pub open spec fn split_step(p_inspired: int, m: int, x: int, l: int) -> int {
    saturate(m - round_div((m - p_inspired) * (x - l), ONE as int))
}

/// The tension after a step of the linear-exponential law with decay exponent
/// `x`, retention `retention` and crossover exponent `l`.
pub open spec fn thalmann_step(
    p0: int,
    p_inspired: int,
    m: int,
    x: int,
    retention: int,
    l: int,
) -> int {
    match crossing(p0, p_inspired, m) {
        Crossing::Never => exponential_step(p0, p_inspired, retention),
        Crossing::Past => linear_step(p0, p_inspired, m, x),
        Crossing::Ahead => if l >= x {
            exponential_step(p0, p_inspired, retention)
        } else if l <= 0 {
            linear_step(p0, p_inspired, m, x)
        } else {
            split_step(p_inspired, m, x, l)
        },
    }
}

/// The time in milliseconds that a crossover exponent `l` stands for in a
/// compartment with rate constant `rate`: `l / rate` minutes, rounded up to
/// the next millisecond so that the time is not cut short, and no more than
/// the largest number of milliseconds.
pub open spec fn crossover_millis(l: int, rate: int) -> int {
    clamp(ceil_div(l * MILLIS_PER_MINUTE, rate), 0, u64::MAX as int)
}

/// The time in milliseconds after which the compartment bears the M-value
/// `m` at a stop, `None` where no time brings that about.
///
/// A compartment that does not exceed `m` needs no time. One whose
/// trajectory meets `m` ahead needs the time up to the crossover. One whose
/// trajectory has met `m` in the past takes up gas at the stop; the straight
/// line gives it a time that is not positive, so it adds nothing to the stop.
/// One whose trajectory never meets `m` has no such time.
pub open spec fn stop_time_tissue(p: int, p_inspired: int, m: int, rate: int, l: int) -> Option<
    int,
> {
    if p <= m {
        Some(0)
    } else {
        match crossing(p, p_inspired, m) {
            Crossing::Never => None,
            Crossing::Past => Some(0),
            Crossing::Ahead => Some(crossover_millis(l, rate)),
        }
    }
}

/// An inert gas is taken up where it is breathed at a higher pressure than
/// the compartment holds, given off where at a lower, and left as it is
/// where at the same: a step of the exponential law ends between the tension
/// it began with and the inspired pressure.
pub proof fn lemma_exponential_step_between(p0: int, p_inspired: int, retention: int)
    ensures
        p_inspired >= p0 ==> p0 <= exponential_step(p0, p_inspired, retention) <= p_inspired,
        p_inspired <= p0 ==> p_inspired <= exponential_step(p0, p_inspired, retention) <= p0,
        p_inspired == p0 ==> exponential_step(p0, p_inspired, retention) == p0,
{
    let part = ONE - unit_clamp(retention);
    let d = p_inspired - p0;
    assert(0 <= part <= ONE);
    if d >= 0 {
        assert(0 * ONE <= d * part <= d * ONE) by (nonlinear_arith)
            requires
                d >= 0,
                0 <= part <= ONE,
        ;
        lemma_round_div_between(d * part, ONE as int, 0, d);
    } else {
        assert(d * ONE <= d * part <= 0 * ONE) by (nonlinear_arith)
            requires
                d < 0,
                0 <= part <= ONE,
        ;
        lemma_round_div_between(d * part, ONE as int, d, 0);
    }
}

/// A step of the linear-exponential law never moves a tension away from the
/// inspired pressure: it does not fall where the gas is breathed at a higher
/// pressure, it does not rise where at a lower, and it stays where at the
/// same.
pub proof fn lemma_thalmann_step_direction(
    p0: int,
    p_inspired: int,
    m: int,
    x: int,
    retention: int,
    l: int,
)
    requires
        i64::MIN <= p0 <= i64::MAX,
        x >= 0,
    ensures
        p_inspired > p0 ==> thalmann_step(p0, p_inspired, m, x, retention, l) >= p0,
        p_inspired < p0 ==> thalmann_step(p0, p_inspired, m, x, retention, l) <= p0,
        p_inspired == p0 ==> thalmann_step(p0, p_inspired, m, x, retention, l) == p0,
{
    lemma_exponential_step_between(p0, p_inspired, retention);
    let a = m - p_inspired;
    let b = p0 - p_inspired;
    let c = crossing(p0, p_inspired, m);
    if c == Crossing::Past || (c == Crossing::Ahead && l < x && l <= 0) {
        if b > 0 {
            assert(a * x >= 0) by (nonlinear_arith)
                requires
                    a > 0,
                    x >= 0,
            ;
        } else {
            assert(a * x <= 0) by (nonlinear_arith)
                requires
                    a < 0,
                    x >= 0,
            ;
        }
        lemma_round_div_sign(a * x, ONE as int);
    } else if c == Crossing::Ahead && l < x {
        if b > 0 {
            assert(a * (x - l) >= 0) by (nonlinear_arith)
                requires
                    a > 0,
                    x - l > 0,
            ;
        } else {
            assert(a * (x - l) <= 0) by (nonlinear_arith)
                requires
                    a < 0,
                    x - l > 0,
            ;
        }
        lemma_round_div_sign(a * (x - l), ONE as int);
    }
}

/// The linear-exponential law has no jump at the crossover. A step that ends
/// exactly at the crossover is the exponential step; the straight line
/// starts from the M-value, at which the trajectory arrives; and where the
/// retention is the crossover ratio, as it is at the crossover, the
/// exponential step ends at the M-value but for the rounding of the ratio.
pub proof fn lemma_thalmann_continuity(p0: int, p_inspired: int, m: int, x: int, retention: int)
    requires
        i64::MIN <= m <= i64::MAX,
    ensures
        crossing(p0, p_inspired, m) == Crossing::Ahead ==> thalmann_step(
            p0,
            p_inspired,
            m,
            x,
            retention,
            x,
        ) == exponential_step(p0, p_inspired, retention),
        split_step(p_inspired, m, x, x) == m,
        crossing(p0, p_inspired, m) == Crossing::Ahead ==> {
            let at_crossover = exponential_step(p0, p_inspired, crossover_ratio(p0, p_inspired, m));
            let b = if p0 > p_inspired {
                p0 - p_inspired
            } else {
                p_inspired - p0
            };
            -(3 * b + ONE) <= 2 * ONE * (at_crossover - m) <= 3 * b + ONE
        },
{
    assert((m - p_inspired) * (x - x) == 0) by (nonlinear_arith);
    lemma_round_div_sign(0, ONE as int);
    if crossing(p0, p_inspired, m) == Crossing::Ahead {
        let a = m - p_inspired;
        let b = p0 - p_inspired;
        let q = crossover_ratio(p0, p_inspired, m);
        // The ratio before it is held to at least one step.
        let raw = if b > 0 {
            round_div(a * ONE, b)
        } else {
            round_div(-a * ONE, -b)
        };
        let bb = if b > 0 {
            b
        } else {
            -b
        };
        let aa = if b > 0 {
            a
        } else {
            -a
        };
        assert(0 < aa < bb);
        crate::fixed::lemma_round_div_nearest(aa * ONE, bb);
        assert(0 * bb <= aa * ONE <= ONE * bb) by (nonlinear_arith)
            requires
                0 < aa < bb,
        ;
        lemma_round_div_between(aa * ONE, bb, 0, ONE as int);
        assert(0 <= raw <= ONE);
        assert(q == raw || (raw == 0 && q == 1));
        assert(unit_clamp(q) == q);
        // bb * q is within bb / 2 + bb of aa * ONE.
        assert(-bb - 2 * bb <= 2 * (aa * ONE - bb * q) <= bb) by (nonlinear_arith)
            requires
                -bb <= 2 * (aa * ONE - bb * raw) < bb,
                q == raw || (raw == 0 && q == 1),
                bb > 0,
        ;
        let n = (p_inspired - p0) * (ONE - q);
        let e = round_div(n, ONE as int);
        crate::fixed::lemma_round_div_nearest(n, ONE as int);
        // n = -b * ONE + b * q, and m - p0 = a - b.
        assert(n == -b * ONE + b * q) by (nonlinear_arith)
            requires
                n == (p_inspired - p0) * (ONE - q),
                b == p0 - p_inspired,
        ;
        assert(b * q == if b > 0 {
            bb * q
        } else {
            -(bb * q)
        }) by (nonlinear_arith)
            requires
                bb == if b > 0 {
                    b
                } else {
                    -b
                },
        ;
        assert(a * ONE == if b > 0 {
            aa * ONE
        } else {
            -(aa * ONE)
        }) by (nonlinear_arith)
            requires
                aa == if b > 0 {
                    a
                } else {
                    -a
                },
        ;
        assert((a - b) * ONE == a * ONE - b * ONE) by (nonlinear_arith);
        assert(ONE * e == e * ONE) by (nonlinear_arith);
        assert(2 * ONE * (p0 + e - m) == 2 * (ONE * e - n) + 2 * (n - (a - b) * ONE)) by (nonlinear_arith)
            requires
                m - p0 == a - b,
        ;
        assert(n - (a - b) * ONE == b * q - a * ONE);
        assert(exponential_step(p0, p_inspired, q) == p0 + e);
    }
}

/// A compartment that exceeds the M-value while its trajectory has met the
/// M-value in the past is below the inspired pressure: it takes up gas at the
/// stop, and the slope of the straight line is against it.
pub proof fn lemma_past_crossing_takes_up(p: int, p_inspired: int, m: int)
    requires
        p > m,
        crossing(p, p_inspired, m) == Crossing::Past,
    ensures
        p < p_inspired,
{
}

/// The decay exponent of `tissue` over `dt_ms` milliseconds.
pub fn decay_exponent(tissue: &Tissue, dt_ms: u64) -> (x: i64)
    ensures
        x == spec_decay_exponent(tissue.spec_rate(), dt_ms as int),
        0 <= x <= EXPONENT_LIMIT,
{
    let rate: i64 = tissue.rate();
    proof {
        lemma_product_bound(
            rate as int,
            dt_ms as int,
            RATE_LIMIT as int,
            0x1_0000_0000_0000_0000,
        );
    }
    let exact: i128 = div_round((rate as i128) * (dt_ms as i128), MILLIS_PER_MINUTE as i128);
    if exact < 0 {
        0
    } else if exact > EXPONENT_LIMIT as i128 {
        EXPONENT_LIMIT
    } else {
        exact as i64
    }
}

/// The retention for the decay exponent `x`, as `exp_neg` gives it.
pub fn retention<F: Fn(i64) -> i64>(exp_neg: &F, x: i64) -> (rho: i64)
    requires
        total(*exp_neg),
    ensures
        retention_of(*exp_neg, x, rho as int),
        0 <= rho <= ONE,
{
    if x == 0 {
        return ONE;
    }
    let y: i64 = exp_neg(x);
    if y < 0 {
        0
    } else if y > ONE {
        ONE
    } else {
        y
    }
}

/// The crossover exponent for the crossover ratio `q`, as `neg_ln` gives it.
pub fn crossover<F: Fn(i64) -> i64>(neg_ln: &F, q: i64) -> (l: i64)
    requires
        total(*neg_ln),
    ensures
        crossover_of(*neg_ln, q, l as int),
        0 <= l <= EXPONENT_LIMIT,
{
    if q == ONE {
        return 0;
    }
    let y: i64 = neg_ln(q);
    if y < 0 {
        0
    } else if y > EXPONENT_LIMIT {
        EXPONENT_LIMIT
    } else {
        y
    }
}

/// The tension after a step of the exponential law.
pub fn exponential_pressure(p0: Pa, p_inspired: Pa, retention: i64) -> (r: Pa)
    ensures
        r.0 == exponential_step(p0.0 as int, p_inspired.0 as int, retention as int),
{
    let kept: i64 = if retention < 0 {
        0
    } else if retention > ONE {
        ONE
    } else {
        retention
    };
    let difference: i128 = (p_inspired.0 as i128) - (p0.0 as i128);
    let part: i128 = (ONE - kept) as i128;
    proof {
        lemma_product_bound(
            difference as int,
            part as int,
            0x1_0000_0000_0000_0000,
            ONE as int,
        );
        lemma_exponential_step_between(p0.0 as int, p_inspired.0 as int, retention as int);
    }
    let change: i128 = div_round(difference * part, ONE as i128);
    Pa(((p0.0 as i128) + change) as i64)
}

/// How the exponential trajectory from `p0` towards `p_inspired` lies to the
/// M-value `m`.
pub fn classify(p0: Pa, p_inspired: Pa, m: Pa) -> (c: Crossing)
    ensures
        c == crossing(p0.0 as int, p_inspired.0 as int, m.0 as int),
{
    let a: i128 = (m.0 as i128) - (p_inspired.0 as i128);
    let b: i128 = (p0.0 as i128) - (p_inspired.0 as i128);
    if b > 0 && a > 0 {
        if a >= b {
            Crossing::Past
        } else {
            Crossing::Ahead
        }
    } else if b < 0 && a < 0 {
        if a <= b {
            Crossing::Past
        } else {
            Crossing::Ahead
        }
    } else {
        Crossing::Never
    }
}

/// The crossover ratio of a compartment, of which the logarithm is wanted;
/// zero where none is.
pub fn crossover_request(p0: Pa, p_inspired: Pa, m: Pa) -> (q: i64)
    ensures
        q == crossover_ratio(p0.0 as int, p_inspired.0 as int, m.0 as int),
        0 <= q <= ONE,
        q == 0 <==> crossing(p0.0 as int, p_inspired.0 as int, m.0 as int) != Crossing::Ahead,
{
    match classify(p0, p_inspired, m) {
        Crossing::Ahead => {
            let a: i128 = (m.0 as i128) - (p_inspired.0 as i128);
            let b: i128 = (p0.0 as i128) - (p_inspired.0 as i128);
            let (top, bottom): (i128, i128) = if b > 0 {
                (a, b)
            } else {
                (-a, -b)
            };
            proof {
                lemma_product_bound(
                    top as int,
                    ONE as int,
                    0x1_0000_0000_0000_0000,
                    ONE as int,
                );
            }
            let exact: i128 = div_round(top * (ONE as i128), bottom);
            if exact < 1 {
                1
            } else if exact > ONE as i128 {
                ONE
            } else {
                exact as i64
            }
        },
        _ => 0,
    }
}

/// An exponent from outside, brought into the range of an exponent.
pub fn held(exponent: i64) -> (l: i64)
    ensures
        l == exponent_clamp(exponent as int),
        0 <= l <= EXPONENT_LIMIT,
{
    if exponent < 0 {
        0
    } else if exponent > EXPONENT_LIMIT {
        EXPONENT_LIMIT
    } else {
        exponent
    }
}

/// The tension after a step of the linear-exponential law with the decay
/// exponent `x`, the retention `retention` and the crossover exponent `l`,
/// each held to its range.
pub fn thalmann_pressure(p0: Pa, p_inspired: Pa, m: Pa, x: i64, retention: i64, l: i64) -> (r: Pa)
    ensures
        r.0 == thalmann_step(
            p0.0 as int,
            p_inspired.0 as int,
            m.0 as int,
            exponent_clamp(x as int),
            retention as int,
            exponent_clamp(l as int),
        ),
{
    let x: i64 = held(x);
    let l: i64 = held(l);
    let c: Crossing = classify(p0, p_inspired, m);
    let exponential: bool = match c {
        Crossing::Never => true,
        Crossing::Past => false,
        Crossing::Ahead => l >= x,
    };
    if exponential {
        return exponential_pressure(p0, p_inspired, retention);
    }
    let a: i128 = (m.0 as i128) - (p_inspired.0 as i128);
    let linear: bool = match c {
        Crossing::Ahead => l <= 0,
        _ => true,
    };
    let (from, along): (i64, i64) = if linear {
        (p0.0, x)
    } else {
        (m.0, x - l)
    };
    proof {
        lemma_product_bound(
            a as int,
            along as int,
            0x1_0000_0000_0000_0000,
            EXPONENT_LIMIT as int,
        );
    }
    let fall: i128 = div_round(a * (along as i128), ONE as i128);
    Pa(saturate_i64((from as i128) - fall))
}

/// The time in milliseconds that the crossover exponent `l`, held to its
/// range, stands for in `tissue`.
pub fn crossover_time(tissue: &Tissue, l: i64) -> (r: u64)
    ensures
        r == crossover_millis(exponent_clamp(l as int), tissue.spec_rate()),
{
    let l: i64 = held(l);
    let rate: i64 = tissue.rate();
    proof {
        lemma_product_bound(
            l as int,
            MILLIS_PER_MINUTE as int,
            EXPONENT_LIMIT as int,
            MILLIS_PER_MINUTE as int,
        );
    }
    let exact: i128 = div_ceil((l as i128) * (MILLIS_PER_MINUTE as i128), rate as i128);
    if exact > u64::MAX as i128 {
        u64::MAX
    } else {
        exact as u64
    }
}

} // verus!
