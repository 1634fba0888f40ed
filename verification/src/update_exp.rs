//! The exponential law: every compartment moves towards the inspired pressure
//! by the part that its rate constant and the time give.
use vstd::prelude::*;
use crate::compartment::{
    decay_exponent, exponential_pressure, exponential_step, lemma_exponential_step_between,
    retention, retention_of, spec_decay_exponent, total,
};
use crate::depth_utils::{get_stop_row, spec_stop_row};
use crate::error::DecoError;
use crate::gas::{lemma_scaled_sign, scaled, GasMix, TissuesLoading};
use crate::mptt::{Tissue, MVALUES, NUM_TISSUES};
use crate::pressure_unit::{msw, pa_of, Pa, Pressure};
use crate::stop_time::{
    crossover_exponents, crossover_ratios, exponents_of, ratios_of, spec_stop_time, stop_time,
    Crossovers,
};

verus! {

/// The tension `after` lies between the tension `before` and the pressure
/// `target`, the ends included: the gas was taken up where it is breathed at
/// a higher pressure than the compartment held, given off where at a lower,
/// and left as it was where at the same.
pub open spec fn moved_towards(before: int, after: int, target: int) -> bool {
    &&& target >= before ==> before <= after <= target
    &&& target <= before ==> target <= after <= before
}

/// `after` is what the exponential law makes of `before` on `gas` at the
/// absolute pressure `depth`, with the retention `retention[i]` for
/// compartment `i`.
pub open spec fn exponential_update_of<const NUM_TS: usize>(
    before: TissuesLoading<NUM_TS, Pa>,
    after: TissuesLoading<NUM_TS, Pa>,
    gas: GasMix,
    depth: int,
    retention: [i64; NUM_TS],
) -> bool {
    &&& forall|i: int|
        0 <= i < NUM_TS ==> (#[trigger] after.n2[i]).0 == exponential_step(
            before.n2[i].0 as int,
            scaled(depth, gas.spec_fn2()),
            retention[i] as int,
        )
    &&& forall|i: int|
        0 <= i < NUM_TS ==> (#[trigger] after.he[i]).0 == exponential_step(
            before.he[i].0 as int,
            scaled(depth, gas.spec_fhe()),
            retention[i] as int,
        )
}

/// `retention` holds, for each compartment, the retention over `dt_ms`
/// milliseconds as `exp_neg` gives it.
pub open spec fn retentions_of<const NUM_TS: usize, F: Fn(i64) -> i64>(
    retention: [i64; NUM_TS],
    tissues: [Tissue; NUM_TS],
    dt_ms: int,
    exp_neg: F,
) -> bool {
    forall|i: int|
        0 <= i < NUM_TS ==> retention_of(
            exp_neg,
            spec_decay_exponent(tissues[i].spec_rate(), dt_ms) as i64,
            (#[trigger] retention[i]) as int,
        )
}

/// `after` is what the exponential law makes of `before` over `dt_ms`
/// milliseconds on `gas` at the absolute pressure `depth`, with the
/// retentions that `exp_neg` gives.
pub open spec fn exp_updated<const NUM_TS: usize, F: Fn(i64) -> i64>(
    before: TissuesLoading<NUM_TS, Pa>,
    after: TissuesLoading<NUM_TS, Pa>,
    tissues: [Tissue; NUM_TS],
    gas: GasMix,
    depth: int,
    dt_ms: int,
    exp_neg: F,
) -> bool {
    exists|retention: [i64; NUM_TS]|
        retentions_of(retention, tissues, dt_ms, exp_neg) && #[trigger] exponential_update_of(
            before,
            after,
            gas,
            depth,
            retention,
        )
}

/// Every tension of `after` lies between the tension of `before` and the
/// pressure at which the gas is breathed.
pub open spec fn all_moved_towards<const NUM_TS: usize>(
    before: TissuesLoading<NUM_TS, Pa>,
    after: TissuesLoading<NUM_TS, Pa>,
    gas: GasMix,
    depth: int,
) -> bool {
    &&& forall|i: int|
        0 <= i < NUM_TS ==> moved_towards(
            before.n2[i].0 as int,
            (#[trigger] after.n2[i]).0 as int,
            scaled(depth, gas.spec_fn2()),
        )
    &&& forall|i: int|
        0 <= i < NUM_TS ==> moved_towards(
            before.he[i].0 as int,
            (#[trigger] after.he[i]).0 as int,
            scaled(depth, gas.spec_fhe()),
        )
}

/// The retention of each compartment over `delta_time` milliseconds, as
/// `exp_neg` gives it.
pub fn retentions<const NUM_TS: usize, F: Fn(i64) -> i64>(
    tissues: &[Tissue; NUM_TS],
    delta_time: u64,
    exp_neg: &F,
) -> (r: [i64; NUM_TS])
    requires
        total(*exp_neg),
    ensures
        retentions_of(r, *tissues, delta_time as int, *exp_neg),
{
    let mut kept: [i64; NUM_TS] = [0i64;NUM_TS];
    let mut i: usize = 0;
    while i < NUM_TS
        invariant
            i <= NUM_TS,
            total(*exp_neg),
            forall|j: int|
                0 <= j < i ==> retention_of(
                    *exp_neg,
                    spec_decay_exponent(tissues[j].spec_rate(), delta_time as int) as i64,
                    (#[trigger] kept[j]) as int,
                ),
        decreases NUM_TS - i,
    {
        kept[i] = retention(exp_neg, decay_exponent(&tissues[i], delta_time));
        i = i + 1;
    }
    kept
}

/// A step of the exponential law with given retentions: each tension of
/// `loading` moves towards the pressure at which `breathing_gas` gives the
/// gas at `current_depth`, and keeps the part `retention[i]` of its
/// distance.
pub fn exponential_update<const NUM_TS: usize>(
    loading: &mut TissuesLoading<NUM_TS, Pa>,
    breathing_gas: &GasMix,
    current_depth: Pa,
    retention: &[i64; NUM_TS],
)
    ensures
        exponential_update_of(
            *old(loading),
            *final(loading),
            *breathing_gas,
            current_depth.0 as int,
            *retention,
        ),
        all_moved_towards(*old(loading), *final(loading), *breathing_gas, current_depth.0 as int),
        old(loading).non_negative() && current_depth.0 >= 0 ==> final(loading).non_negative(),
{
    let ghost before = *loading;
    proof {
        use_type_invariant(breathing_gas);
    }
    let p_inspired_n2: Pa = current_depth.scale(breathing_gas.fn2() as i64);
    let p_inspired_he: Pa = current_depth.scale(breathing_gas.fhe() as i64);
    let mut i: usize = 0;
    while i < NUM_TS
        invariant
            i <= NUM_TS,
            p_inspired_n2.0 == scaled(current_depth.0 as int, breathing_gas.spec_fn2()),
            p_inspired_he.0 == scaled(current_depth.0 as int, breathing_gas.spec_fhe()),
            forall|j: int| i <= j < NUM_TS ==> (#[trigger] loading.n2[j]) == before.n2[j],
            forall|j: int| i <= j < NUM_TS ==> (#[trigger] loading.he[j]) == before.he[j],
            forall|j: int|
                0 <= j < i ==> (#[trigger] loading.n2[j]).0 == exponential_step(
                    before.n2[j].0 as int,
                    p_inspired_n2.0 as int,
                    retention[j] as int,
                ),
            forall|j: int|
                0 <= j < i ==> (#[trigger] loading.he[j]).0 == exponential_step(
                    before.he[j].0 as int,
                    p_inspired_he.0 as int,
                    retention[j] as int,
                ),
        decreases NUM_TS - i,
    {
        loading.n2[i] = exponential_pressure(loading.n2[i], p_inspired_n2, retention[i]);
        loading.he[i] = exponential_pressure(loading.he[i], p_inspired_he, retention[i]);
        i = i + 1;
    }
    proof {
        breathing_gas.lemma_composition();
        if current_depth.0 >= 0 {
            lemma_scaled_sign(current_depth.0 as int, breathing_gas.spec_fn2());
            lemma_scaled_sign(current_depth.0 as int, breathing_gas.spec_fhe());
        }
        assert forall|j: int| 0 <= j < NUM_TS implies moved_towards(
            before.n2[j].0 as int,
            (#[trigger] loading.n2[j]).0 as int,
            p_inspired_n2.0 as int,
        ) by {
            lemma_exponential_step_between(
                before.n2[j].0 as int,
                p_inspired_n2.0 as int,
                retention[j] as int,
            );
        }
        assert forall|j: int| 0 <= j < NUM_TS implies moved_towards(
            before.he[j].0 as int,
            (#[trigger] loading.he[j]).0 as int,
            p_inspired_he.0 as int,
        ) by {
            lemma_exponential_step_between(
                before.he[j].0 as int,
                p_inspired_he.0 as int,
                retention[j] as int,
            );
        }
    }
}

/// A step of the exponential law over `delta_time` milliseconds at
/// `current_depth` on `breathing_gas`. The exponential function is
/// `exp_neg`: for a decay exponent `x` in units of 10^-12 it gives
/// `exp(-x)` in the same units.
pub fn update_model_state_exp<P: Pressure, const NUM_TS: usize, F: Fn(i64) -> i64>(
    loading: &mut TissuesLoading<NUM_TS, Pa>,
    tissues: &[Tissue; NUM_TS],
    breathing_gas: &GasMix,
    current_depth: P,
    delta_time: u64,
    exp_neg: &F,
)
    requires
        total(*exp_neg),
    ensures
        exp_updated(
            *old(loading),
            *final(loading),
            *tissues,
            *breathing_gas,
            pa_of(current_depth),
            delta_time as int,
            *exp_neg,
        ),
        all_moved_towards(*old(loading), *final(loading), *breathing_gas, pa_of(current_depth)),
        old(loading).non_negative() && pa_of(current_depth) >= 0 ==> final(loading).non_negative(),
{
    let kept: [i64; NUM_TS] = retentions(tissues, delta_time, exp_neg);
    exponential_update(loading, breathing_gas, current_depth.to_pa(), &kept);
}

/// `millis` is the time that a stop on `gas` at the absolute pressure
/// `depth` has to last for `loading` to come under the M-values of row `row`
/// of `m_values`, with the logarithm that `neg_ln` gives; `None` where no
/// time brings that about.
pub open spec fn stop_time_found<const NUM_TS: usize, F: Fn(i64) -> i64>(
    millis: Option<int>,
    loading: TissuesLoading<NUM_TS, Pa>,
    tissues: [Tissue; NUM_TS],
    gas: GasMix,
    m_values: MVALUES,
    row: int,
    depth: int,
    neg_ln: F,
) -> bool {
    exists|ratios: Crossovers<NUM_TS>, exponents: Crossovers<NUM_TS>|
        #![trigger exponents_of(exponents, ratios, neg_ln)]
        {
            &&& ratios_of(ratios, loading, gas, m_values[row], depth)
            &&& exponents_of(exponents, ratios, neg_ln)
            &&& millis == spec_stop_time(loading, tissues, gas, m_values[row], depth, exponents)
        }
}

/// The time in milliseconds that a stop at `stop_depth` on `breathing_gas`
/// has to last: the longest time that a compartment needs for its
/// exponential trajectory to come down to its M-value in the row of the table
/// that lies at that depth. The logarithm is `neg_ln`: for a ratio `q` in units of 10^-12 it
/// gives `-ln(q)` in the same units.
///
/// The stop is refused where no row of the table lies at the depth, and where
/// some compartment exceeds its M-value and no time at this depth brings it
/// under.
pub fn compute_stop_time_exp<const NUM_TS: usize, F: Fn(i64) -> i64>(
    loading: &TissuesLoading<NUM_TS, Pa>,
    tissues: &[Tissue; NUM_TS],
    breathing_gas: &GasMix,
    m_values: &MVALUES,
    stop_depth: msw,
    neg_ln: &F,
) -> (r: Result<u64, DecoError>)
    requires
        NUM_TS <= NUM_TISSUES,
        total(*neg_ln),
    ensures
        r is Err ==> r->Err_0 == DecoError::InputOutOfRange,
        spec_stop_row(stop_depth.0 as int) is None ==> r is Err,
        spec_stop_row(stop_depth.0 as int) is Some ==> stop_time_found(
            match r {
                Ok(millis) => Some(millis as int),
                Err(_) => None,
            },
            *loading,
            *tissues,
            *breathing_gas,
            *m_values,
            spec_stop_row(stop_depth.0 as int)->Some_0,
            pa_of(stop_depth),
            *neg_ln,
        ),
{
    let row: usize = match get_stop_row(stop_depth) {
        Ok(row) => row,
        Err(e) => {
            return Err(e);
        },
    };
    let depth: Pa = stop_depth.to_pa();
    let ratios: Crossovers<NUM_TS> = crossover_ratios(loading, breathing_gas, &m_values[row], depth);
    let exponents: Crossovers<NUM_TS> = crossover_exponents(&ratios, neg_ln);
    stop_time(loading, tissues, breathing_gas, &m_values[row], depth, &exponents)
}

} // verus!
