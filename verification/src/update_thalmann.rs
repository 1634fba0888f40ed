//! The linear-exponential law: a compartment follows the exponential law up
//! to the crossover with its M-value and a straight line from there.
use vstd::prelude::*;
use crate::compartment::{
    decay_exponent, exponent_clamp, lemma_thalmann_step_direction, spec_decay_exponent,
    thalmann_pressure, thalmann_step, total,
};
use crate::depth_utils::{get_row_idx, get_stop_row, spec_row_idx, spec_stop_row};
use crate::error::DecoError;
use crate::gas::{scaled, GasMix, TissuesLoading};
use crate::mptt::{Tissue, TissueRow, MVALUES, NUM_TISSUES};
use crate::pressure_unit::{msw, msw_of, pa_of, Pa, Pressure};
use crate::stop_time::{
    crossover_exponents, crossover_ratios, exponents_of, ratios_of, stop_time, Crossovers,
};
use crate::update_exp::{retentions, retentions_of, stop_time_found};

verus! {

/// The tension `after` has not moved away from the pressure `target`: it
/// has not fallen where the gas is breathed at a higher pressure than the
/// compartment held, not risen where at a lower, and stayed where at the
/// same.
pub open spec fn not_moved_away(before: int, after: int, target: int) -> bool {
    &&& target > before ==> after >= before
    &&& target < before ==> after <= before
    &&& target == before ==> after == before
}

/// `after` is what the linear-exponential law makes of `before` over `dt_ms`
/// milliseconds on `gas` at the absolute pressure `depth`, against the
/// M-values of `row`, with the retention `retention[i]` and the crossover
/// exponents of `exponents` for compartment `i`.
pub open spec fn thalmann_update_of<const NUM_TS: usize>(
    before: TissuesLoading<NUM_TS, Pa>,
    after: TissuesLoading<NUM_TS, Pa>,
    tissues: [Tissue; NUM_TS],
    row: TissueRow<NUM_TISSUES>,
    gas: GasMix,
    depth: int,
    dt_ms: int,
    retention: [i64; NUM_TS],
    exponents: Crossovers<NUM_TS>,
) -> bool {
    &&& forall|i: int|
        0 <= i < NUM_TS ==> (#[trigger] after.n2[i]).0 == thalmann_step(
            before.n2[i].0 as int,
            scaled(depth, gas.spec_fn2()),
            row.max_saturation[i].0 as int,
            spec_decay_exponent(tissues[i].spec_rate(), dt_ms),
            retention[i] as int,
            exponent_clamp(exponents.n2[i] as int),
        )
    &&& forall|i: int|
        0 <= i < NUM_TS ==> (#[trigger] after.he[i]).0 == thalmann_step(
            before.he[i].0 as int,
            scaled(depth, gas.spec_fhe()),
            row.max_saturation[i].0 as int,
            spec_decay_exponent(tissues[i].spec_rate(), dt_ms),
            retention[i] as int,
            exponent_clamp(exponents.he[i] as int),
        )
}

/// No tension of `after` has moved away from the pressure at which the gas
/// is breathed.
pub open spec fn none_moved_away<const NUM_TS: usize>(
    before: TissuesLoading<NUM_TS, Pa>,
    after: TissuesLoading<NUM_TS, Pa>,
    gas: GasMix,
    depth: int,
) -> bool {
    &&& forall|i: int|
        0 <= i < NUM_TS ==> not_moved_away(
            before.n2[i].0 as int,
            (#[trigger] after.n2[i]).0 as int,
            scaled(depth, gas.spec_fn2()),
        )
    &&& forall|i: int|
        0 <= i < NUM_TS ==> not_moved_away(
            before.he[i].0 as int,
            (#[trigger] after.he[i]).0 as int,
            scaled(depth, gas.spec_fhe()),
        )
}

/// `after` is what the linear-exponential law makes of `before` over `dt_ms`
/// milliseconds on `gas` at the absolute pressure `depth`, against row `row`
/// of `m_values`, with the retentions that `exp_neg` gives and the crossover
/// exponents that `neg_ln` gives.
pub open spec fn thalmann_updated<const NUM_TS: usize, F: Fn(i64) -> i64, G: Fn(i64) -> i64>(
    before: TissuesLoading<NUM_TS, Pa>,
    after: TissuesLoading<NUM_TS, Pa>,
    tissues: [Tissue; NUM_TS],
    m_values: MVALUES,
    row: int,
    gas: GasMix,
    depth: int,
    dt_ms: int,
    exp_neg: F,
    neg_ln: G,
) -> bool {
    exists|retention: [i64; NUM_TS], ratios: Crossovers<NUM_TS>, exponents: Crossovers<NUM_TS>|
        #![trigger retentions_of(retention, tissues, dt_ms, exp_neg), exponents_of(exponents, ratios, neg_ln)]
        {
            &&& retentions_of(retention, tissues, dt_ms, exp_neg)
            &&& ratios_of(ratios, before, gas, m_values[row], depth)
            &&& exponents_of(exponents, ratios, neg_ln)
            &&& thalmann_update_of(
                before,
                after,
                tissues,
                m_values[row],
                gas,
                depth,
                dt_ms,
                retention,
                exponents,
            )
        }
}

/// A step of the linear-exponential law with given retentions and crossover
/// exponents, against the M-values of `row`.
pub fn thalmann_update<const NUM_TS: usize>(
    loading: &mut TissuesLoading<NUM_TS, Pa>,
    tissues: &[Tissue; NUM_TS],
    row: &TissueRow<NUM_TISSUES>,
    breathing_gas: &GasMix,
    current_depth: Pa,
    delta_time: u64,
    retention: &[i64; NUM_TS],
    exponents: &Crossovers<NUM_TS>,
)
    requires
        NUM_TS <= NUM_TISSUES,
    ensures
        thalmann_update_of(
            *old(loading),
            *final(loading),
            *tissues,
            *row,
            *breathing_gas,
            current_depth.0 as int,
            delta_time as int,
            *retention,
            *exponents,
        ),
        none_moved_away(*old(loading), *final(loading), *breathing_gas, current_depth.0 as int),
{
    let ghost before = *loading;
    let p_inspired_n2: Pa = current_depth.scale(breathing_gas.fn2() as i64);
    let p_inspired_he: Pa = current_depth.scale(breathing_gas.fhe() as i64);
    let mut i: usize = 0;
    while i < NUM_TS
        invariant
            i <= NUM_TS,
            NUM_TS <= NUM_TISSUES,
            p_inspired_n2.0 == scaled(current_depth.0 as int, breathing_gas.spec_fn2()),
            p_inspired_he.0 == scaled(current_depth.0 as int, breathing_gas.spec_fhe()),
            forall|j: int| i <= j < NUM_TS ==> (#[trigger] loading.n2[j]) == before.n2[j],
            forall|j: int| i <= j < NUM_TS ==> (#[trigger] loading.he[j]) == before.he[j],
            forall|j: int|
                0 <= j < i ==> (#[trigger] loading.n2[j]).0 == thalmann_step(
                    before.n2[j].0 as int,
                    p_inspired_n2.0 as int,
                    row.max_saturation[j].0 as int,
                    spec_decay_exponent(tissues[j].spec_rate(), delta_time as int),
                    retention[j] as int,
                    exponent_clamp(exponents.n2[j] as int),
                ),
            forall|j: int|
                0 <= j < i ==> (#[trigger] loading.he[j]).0 == thalmann_step(
                    before.he[j].0 as int,
                    p_inspired_he.0 as int,
                    row.max_saturation[j].0 as int,
                    spec_decay_exponent(tissues[j].spec_rate(), delta_time as int),
                    retention[j] as int,
                    exponent_clamp(exponents.he[j] as int),
                ),
        decreases NUM_TS - i,
    {
        let x: i64 = decay_exponent(&tissues[i], delta_time);
        let m: Pa = row.max_saturation[i];
        loading.n2[i] = thalmann_pressure(
            loading.n2[i],
            p_inspired_n2,
            m,
            x,
            retention[i],
            exponents.n2[i],
        );
        loading.he[i] = thalmann_pressure(
            loading.he[i],
            p_inspired_he,
            m,
            x,
            retention[i],
            exponents.he[i],
        );
        i = i + 1;
    }
    proof {
        assert forall|j: int| 0 <= j < NUM_TS implies not_moved_away(
            before.n2[j].0 as int,
            (#[trigger] loading.n2[j]).0 as int,
            p_inspired_n2.0 as int,
        ) by {
            lemma_thalmann_step_direction(
                before.n2[j].0 as int,
                p_inspired_n2.0 as int,
                row.max_saturation[j].0 as int,
                spec_decay_exponent(tissues[j].spec_rate(), delta_time as int),
                retention[j] as int,
                exponent_clamp(exponents.n2[j] as int),
            );
        }
        assert forall|j: int| 0 <= j < NUM_TS implies not_moved_away(
            before.he[j].0 as int,
            (#[trigger] loading.he[j]).0 as int,
            p_inspired_he.0 as int,
        ) by {
            lemma_thalmann_step_direction(
                before.he[j].0 as int,
                p_inspired_he.0 as int,
                row.max_saturation[j].0 as int,
                spec_decay_exponent(tissues[j].spec_rate(), delta_time as int),
                retention[j] as int,
                exponent_clamp(exponents.he[j] as int),
            );
        }
    }
}

/// A step of the linear-exponential law over `delta_time` milliseconds at
/// `current_depth` on `breathing_gas`, against the row of the table with the
/// number of that depth. `exp_neg` is the exponential function and `neg_ln` the
/// logarithm: for `x` in units of 10^-12 they give `exp(-x)` and `-ln(x)` in
/// the same units.
///
/// The step is refused, and the loading left as it is, where the depth has
/// no such row.
pub fn update_model_state_thalmann<
    P: Pressure,
    const NUM_TS: usize,
    F: Fn(i64) -> i64,
    G: Fn(i64) -> i64,
>(
    loading: &mut TissuesLoading<NUM_TS, Pa>,
    tissues: &[Tissue; NUM_TS],
    m_values: &MVALUES,
    breathing_gas: &GasMix,
    current_depth: P,
    delta_time: u64,
    exp_neg: &F,
    neg_ln: &G,
) -> (r: Result<(), DecoError>)
    requires
        NUM_TS <= NUM_TISSUES,
        total(*exp_neg),
        total(*neg_ln),
    ensures
        r is Ok <==> spec_row_idx(msw_of(current_depth)) is Some,
        r is Err ==> r->Err_0 == DecoError::InputOutOfRange && *final(loading) == *old(loading),
        r is Ok ==> thalmann_updated(
            *old(loading),
            *final(loading),
            *tissues,
            *m_values,
            spec_row_idx(msw_of(current_depth))->Some_0,
            *breathing_gas,
            pa_of(current_depth),
            delta_time as int,
            *exp_neg,
            *neg_ln,
        ),
        none_moved_away(*old(loading), *final(loading), *breathing_gas, pa_of(current_depth)),
{
    let row: usize = match get_row_idx(current_depth) {
        Ok(row) => row,
        Err(e) => {
            return Err(e);
        },
    };
    let depth: Pa = current_depth.to_pa();
    let kept: [i64; NUM_TS] = retentions(tissues, delta_time, exp_neg);
    let ratios: Crossovers<NUM_TS> = crossover_ratios(loading, breathing_gas, &m_values[row], depth);
    let exponents: Crossovers<NUM_TS> = crossover_exponents(&ratios, neg_ln);
    thalmann_update(
        loading,
        tissues,
        &m_values[row],
        breathing_gas,
        depth,
        delta_time,
        &kept,
        &exponents,
    );
    Ok(())
}

/// The time in milliseconds that a stop at `stop_depth` on `breathing_gas`
/// has to last under the linear-exponential law: for each compartment that
/// exceeds its M-value in the row of the table that lies at that depth, the
/// time up to the crossover, at which the trajectory has come down to the
/// M-value; the longest of them.
///
/// The stop is refused where no row of the table lies at the depth, and where
/// some compartment exceeds its M-value and no time at this depth brings it
/// under.
pub fn compute_stop_time_thalmann<const NUM_TS: usize, F: Fn(i64) -> i64>(
    loading: &TissuesLoading<NUM_TS, Pa>,
    tissues: &[Tissue; NUM_TS],
    breathing_gas: &GasMix,
    m_values: &MVALUES,
    stop_depth: msw,
    neg_ln: &F,
) -> (r: Result<u64, DecoError>)
    requires
        NUM_TS <= NUM_TISSUES,
        total(*neg_ln),
    ensures
        r is Err ==> r->Err_0 == DecoError::InputOutOfRange,
        spec_stop_row(stop_depth.0 as int) is None ==> r is Err,
        spec_stop_row(stop_depth.0 as int) is Some ==> stop_time_found(
            match r {
                Ok(millis) => Some(millis as int),
                Err(_) => None,
            },
            *loading,
            *tissues,
            *breathing_gas,
            *m_values,
            spec_stop_row(stop_depth.0 as int)->Some_0,
            pa_of(stop_depth),
            *neg_ln,
        ),
{
    let row: usize = match get_stop_row(stop_depth) {
        Ok(row) => row,
        Err(e) => {
            return Err(e);
        },
    };
    let depth: Pa = stop_depth.to_pa();
    let ratios: Crossovers<NUM_TS> = crossover_ratios(loading, breathing_gas, &m_values[row], depth);
    let exponents: Crossovers<NUM_TS> = crossover_exponents(&ratios, neg_ln);
    stop_time(loading, tissues, breathing_gas, &m_values[row], depth, &exponents)
}

} // verus!
