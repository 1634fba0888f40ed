//! The first stop that a loading asks for, and the loading that a recorded
//! dive has left.
use vstd::prelude::*;
use crate::compartment::total;
use crate::depth_utils::spec_row_idx;
use crate::dive::{DiveMeasurement, DiveProfile};
use crate::error::DecoError;
use crate::fixed::{div_round, lemma_round_div_between, lemma_round_div_exact, round_div};
use crate::gas::TissuesLoading;
use crate::mptt::{Tissue, TissueRow, MVALUES, NUM_STOP_DEPTHS, NUM_TISSUES};
use crate::pressure_unit::{msw, msw_of, pa_of, Pa, Pressure, PA_STEP};
use crate::thalmann::{state_updated, update_model_state, UpdateLaw};

verus! {

/// Compartment `i` holds more nitrogen or more helium than `row` lets it.
pub open spec fn tissue_exceeds<const NUM_TS: usize>(
    p: TissuesLoading<NUM_TS, Pa>,
    row: TissueRow<NUM_TISSUES>,
    i: int,
) -> bool {
    p.n2[i].0 > row.max_saturation[i].0 || p.he[i].0 > row.max_saturation[i].0
}

/// Some compartment holds more of a gas than `row` lets it.
pub open spec fn row_exceeded<const NUM_TS: usize>(
    p: TissuesLoading<NUM_TS, Pa>,
    row: TissueRow<NUM_TISSUES>,
) -> bool {
    exists|i: int| 0 <= i < NUM_TS && #[trigger] tissue_exceeds(p, row, i)
}

/// The deepest of the first `rows` rows of the table that the loading
/// exceeds, if there is one.
pub open spec fn deepest_exceeded<const NUM_TS: usize>(
    p: TissuesLoading<NUM_TS, Pa>,
    m_values: MVALUES,
    rows: nat,
) -> Option<int>
    decreases rows,
{
    if rows == 0 {
        None
    } else if row_exceeded(p, m_values[rows - 1]) {
        Some(rows - 1)
    } else {
        deepest_exceeded(p, m_values, (rows - 1) as nat)
    }
}

/// The row of the first stop: the deepest row of the table that the loading
/// exceeds.
pub open spec fn spec_first_stop_row<const NUM_TS: usize>(
    p: TissuesLoading<NUM_TS, Pa>,
    m_values: MVALUES,
) -> Option<int> {
    deepest_exceeded(p, m_values, NUM_STOP_DEPTHS as nat)
}

/// The depth of the first stop: that of the deepest row of the table that
/// the loading exceeds. `None` where it exceeds no row, so that the way to
/// the surface is free.
pub open spec fn spec_first_stop_depth<const NUM_TS: usize>(
    p: TissuesLoading<NUM_TS, Pa>,
    m_values: MVALUES,
) -> Option<msw> {
    match spec_first_stop_row(p, m_values) {
        Some(row) => Some(m_values[row].depth),
        None => None,
    }
}

/// What the deepest exceeded row is: it is exceeded, no row under it is, and
/// there is none exactly where no row is exceeded.
pub proof fn lemma_deepest_exceeded<const NUM_TS: usize>(
    p: TissuesLoading<NUM_TS, Pa>,
    m_values: MVALUES,
    rows: nat,
)
    ensures
        match deepest_exceeded(p, m_values, rows) {
            Some(row) => {
                &&& 0 <= row < rows
                &&& row_exceeded(p, m_values[row])
                &&& forall|j: int| row < j < rows ==> !row_exceeded(p, #[trigger] m_values[j])
            },
            None => forall|j: int| 0 <= j < rows ==> !row_exceeded(p, #[trigger] m_values[j]),
        },
    decreases rows,
{
    if rows > 0 && !row_exceeded(p, m_values[rows - 1]) {
        lemma_deepest_exceeded(p, m_values, (rows - 1) as nat);
    }
}

/// Whether some compartment holds more of a gas than `row` lets it.
fn exceeds_row<const NUM_TS: usize>(p: &TissuesLoading<NUM_TS, Pa>, row: &TissueRow<NUM_TISSUES>) -> (r:
    bool)
    requires
        NUM_TS <= NUM_TISSUES,
    ensures
        r == row_exceeded(*p, *row),
{
    let mut i: usize = 0;
    while i < NUM_TS
        invariant
            i <= NUM_TS,
            NUM_TS <= NUM_TISSUES,
            forall|j: int| 0 <= j < i ==> !#[trigger] tissue_exceeds(*p, *row, j),
        decreases NUM_TS - i,
    {
        if p.n2[i].0 > row.max_saturation[i].0 || p.he[i].0 > row.max_saturation[i].0 {
            assert(tissue_exceeds(*p, *row, i as int));
            return true;
        }
        i = i + 1;
    }
    false
}

/// The row of the first stop that the loading `p` asks for under the table
/// `m_values`.
pub fn first_stop_row<const NUM_TS: usize>(p: &TissuesLoading<NUM_TS, Pa>, m_values: &MVALUES) -> (r:
    Option<usize>)
    requires
        NUM_TS <= NUM_TISSUES,
    ensures
        r is Some == spec_first_stop_row(*p, *m_values) is Some,
        r is Some ==> r->Some_0 == spec_first_stop_row(*p, *m_values)->Some_0,
        r is Some ==> r->Some_0 < NUM_STOP_DEPTHS,
{
    let mut rows: usize = NUM_STOP_DEPTHS;
    while rows > 0
        invariant
            rows <= NUM_STOP_DEPTHS,
            NUM_TS <= NUM_TISSUES,
            spec_first_stop_row(*p, *m_values) == deepest_exceeded(*p, *m_values, rows as nat),
        decreases rows,
    {
        if exceeds_row(p, &m_values[rows - 1]) {
            return Some(rows - 1);
        }
        rows = rows - 1;
    }
    None
}

/// The depth of the first stop that the loading `p` asks for under the table
/// `m_values`: the table is searched from its deepest row up for a row that
/// some compartment exceeds in nitrogen or in helium.
pub fn first_stop_depth<const NUM_TS: usize>(p: &TissuesLoading<NUM_TS, Pa>, m_values: &MVALUES) -> (r:
    Option<msw>)
    requires
        NUM_TS <= NUM_TISSUES,
    ensures
        r == spec_first_stop_depth(*p, *m_values),
{
    match first_stop_row(p, m_values) {
        Some(row) => Some(m_values[row].depth),
        None => None,
    }
}

/// The pressure midway between two readings, in millionths of a pascal.
pub open spec fn midpoint(a: DiveMeasurement, b: DiveMeasurement) -> int {
    round_div(a.depth.0 + b.depth.0, 2)
}

/// The stretch of the dive that ends with reading `k` cannot be followed:
/// the reading names a gas that the dive has not, it was taken before the
/// reading that it follows, or `law` refuses the depth midway between the
/// two.
pub open spec fn stretch_refused<P: Pressure, const G: usize, const M: usize>(
    profile: DiveProfile<P, G, M>,
    k: int,
    law: UpdateLaw,
) -> bool {
    let from = profile.measurements[k - 1];
    let to = profile.measurements[k];
    ||| to.gas >= G
    ||| to.time_ms < from.time_ms
    ||| law == UpdateLaw::LinearExponential && spec_row_idx(
        msw_of(Pa(midpoint(from, to) as i64)),
    ) is None
}

/// `loading` is what the first `k` stretches of the dive make of tissues
/// that hold both gases at the pressure `surface`: each stretch, from one
/// reading to the next, is a step of `law` over the time between the two, at
/// the pressure midway between them, on the gas of the later one.
pub open spec fn profile_followed<
    P: Pressure,
    const NUM_TS: usize,
    const G: usize,
    const M: usize,
    F: Fn(i64) -> i64,
    L: Fn(i64) -> i64,
>(
    loading: TissuesLoading<NUM_TS, Pa>,
    k: nat,
    tissues: [Tissue; NUM_TS],
    profile: DiveProfile<P, G, M>,
    m_values: MVALUES,
    surface: Pa,
    law: UpdateLaw,
    exp_neg: F,
    neg_ln: L,
) -> bool
    decreases k,
{
    if k == 0 {
        &&& forall|i: int| 0 <= i < NUM_TS ==> (#[trigger] loading.n2[i]) == surface
        &&& forall|i: int| 0 <= i < NUM_TS ==> (#[trigger] loading.he[i]) == surface
    } else {
        let from = profile.measurements[k - 1];
        let to = profile.measurements[k as int];
        &&& !stretch_refused(profile, k as int, law)
        &&& exists|before: TissuesLoading<NUM_TS, Pa>|
            #![trigger state_updated(law, before, loading, tissues, m_values, profile.gases[to.gas as int], msw_of(Pa(midpoint(from, to) as i64)), midpoint(from, to), to.time_ms - from.time_ms, exp_neg, neg_ln)]
            {
                &&& profile_followed(
                    before,
                    (k - 1) as nat,
                    tissues,
                    profile,
                    m_values,
                    surface,
                    law,
                    exp_neg,
                    neg_ln,
                )
                &&& state_updated(
                    law,
                    before,
                    loading,
                    tissues,
                    m_values,
                    profile.gases[to.gas as int],
                    msw_of(Pa(midpoint(from, to) as i64)),
                    midpoint(from, to),
                    to.time_ms - from.time_ms,
                    exp_neg,
                    neg_ln,
                )
            }
    }
}

/// The loading that the recorded dive `profile` has left in tissues that
/// held both gases at the pressure `surface` at its start.
///
/// The dive is refused where one of its stretches cannot be followed.
pub fn loadings_from_dive_profile<
    P: Pressure,
    const NUM_TS: usize,
    const NUM_GASES: usize,
    const NUM_MEASUREMENTS: usize,
    F: Fn(i64) -> i64,
    L: Fn(i64) -> i64,
>(
    tissues: &[Tissue; NUM_TS],
    profile: &DiveProfile<P, NUM_GASES, NUM_MEASUREMENTS>,
    m_values: &MVALUES,
    surface: Pa,
    law: UpdateLaw,
    exp_neg: &F,
    neg_ln: &L,
) -> (r: Result<TissuesLoading<NUM_TS, Pa>, DecoError>)
    requires
        NUM_TS <= NUM_TISSUES,
        total(*exp_neg),
        total(*neg_ln),
    ensures
        r is Err <==> exists|k: int|
            1 <= k < NUM_MEASUREMENTS && #[trigger] stretch_refused(*profile, k, law),
        r is Err ==> r->Err_0 == DecoError::InputOutOfRange,
        r is Ok ==> profile_followed(
            r->Ok_0,
            if NUM_MEASUREMENTS == 0 {
                0nat
            } else {
                (NUM_MEASUREMENTS - 1) as nat
            },
            *tissues,
            *profile,
            *m_values,
            surface,
            law,
            *exp_neg,
            *neg_ln,
        ),
{
    let mut loadings: TissuesLoading<NUM_TS, Pa> = TissuesLoading {
        he: [surface;NUM_TS],
        n2: [surface;NUM_TS],
    };
    if NUM_MEASUREMENTS == 0 {
        return Ok(loadings);
    }
    let mut k: usize = 1;
    while k < NUM_MEASUREMENTS
        invariant
            1 <= k <= NUM_MEASUREMENTS,
            NUM_TS <= NUM_TISSUES,
            total(*exp_neg),
            total(*neg_ln),
            forall|j: int| 1 <= j < k ==> !#[trigger] stretch_refused(*profile, j, law),
            profile_followed(
                loadings,
                (k - 1) as nat,
                *tissues,
                *profile,
                *m_values,
                surface,
                law,
                *exp_neg,
                *neg_ln,
            ),
        decreases NUM_MEASUREMENTS - k,
    {
        let from: DiveMeasurement = profile.measurements[k - 1];
        let to: DiveMeasurement = profile.measurements[k];
        if to.gas >= NUM_GASES || to.time_ms < from.time_ms {
            assert(stretch_refused(*profile, k as int, law));
            return Err(DecoError::InputOutOfRange);
        }
        let delta_time: u64 = (to.time_ms - from.time_ms) as u64;
        proof {
            lemma_round_div_between(
                from.depth.0 + to.depth.0,
                2,
                i64::MIN as int,
                i64::MAX as int,
            );
        }
        let middle: Pa = Pa(div_round((from.depth.0 as i128) + (to.depth.0 as i128), 2) as i64);
        proof {
            lemma_round_div_exact(middle.0 as int, PA_STEP as int);
            assert(middle.0 == midpoint(from, to));
            assert(pa_of(middle) == midpoint(from, to));
        }
        let ghost before = loadings;
        match update_model_state(
            law,
            &mut loadings,
            tissues,
            m_values,
            &profile.gases[to.gas],
            middle,
            delta_time,
            exp_neg,
            neg_ln,
        ) {
            Ok(()) => {},
            Err(e) => {
                assert(stretch_refused(*profile, k as int, law));
                return Err(e);
            },
        }
        assert(!stretch_refused(*profile, k as int, law));
        assert(state_updated(
            law,
            before,
            loadings,
            *tissues,
            *m_values,
            profile.gases[to.gas as int],
            msw_of(Pa(midpoint(from, to) as i64)),
            midpoint(from, to),
            to.time_ms - from.time_ms,
            *exp_neg,
            *neg_ln,
        ));
        assert(profile_followed(
            loadings,
            k as nat,
            *tissues,
            *profile,
            *m_values,
            surface,
            law,
            *exp_neg,
            *neg_ln,
        ));
        k = k + 1;
    }
    Ok(loadings)
}

/// No compartment holds more than the table lets it at the depth with
/// number `dep_delta`: `p` holds one tension for each of the `n`
/// compartments, and `m` holds for each compartment its M-values by depth
/// number.
#[allow(non_snake_case)]
pub fn checkNoMpttExceeded(n: usize, dep_delta: usize, p: &Vec<i64>, m: &Vec<Vec<i64>>) -> (r: bool)
    requires
        p.len() == n,
        m.len() == n,
        forall|i: int| 0 <= i < n ==> dep_delta < (#[trigger] m[i]).len(),
    ensures
        r <==> forall|i: int| 0 <= i < n ==> (#[trigger] p[i]) <= m[i][dep_delta as int],
{
    let mut i: usize = 0;
    while i < n
        invariant
            i <= n,
            p.len() == n,
            m.len() == n,
            forall|j: int| 0 <= j < n ==> dep_delta < (#[trigger] m[j]).len(),
            forall|j: int| 0 <= j < i ==> (#[trigger] p[j]) <= m[j][dep_delta as int],
        decreases n - i,
    {
        if p[i] > m[i][dep_delta] {
            return false;
        }
        i = i + 1;
    }
    true
}

} // verus!
