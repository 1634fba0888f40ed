//! The two laws behind one operation, the schedule of stops that brings a
//! loading to the surface, and the step of the loop that follows a dive.
use vstd::prelude::*;
use crate::compartment::total;
use crate::depth_utils::{get_depth_idx, spec_depth_idx, spec_row_idx, spec_stop_row};
use crate::dive::{slot_depth, Stop, StopSchedule};
use crate::error::DecoError;
use crate::gas::{GasMix, TissuesLoading};
use crate::mptt::{
    are_model_tissues, is_xval_he9_040, on_grid, table_depth, tissues, Tissue, MVALUES,
    NUM_STOP_DEPTHS, NUM_TISSUES,
};
use crate::pressure_unit::{msw, msw_of, pa_of, Pa, Pressure};
use crate::setup::{initialize_model_state, initialize_profile, set_m, LAST_STOP};
use crate::update::{first_stop_depth, lemma_deepest_exceeded, spec_first_stop_depth, spec_first_stop_row};
use crate::update_exp::{
    compute_stop_time_exp, exp_updated, stop_time_found, update_model_state_exp,
};
use crate::update_thalmann::{
    compute_stop_time_thalmann, none_moved_away, thalmann_updated, update_model_state_thalmann,
};

verus! {

/// The law by which the tissues take up and give off gas.
#[derive(Clone, Copy, Debug, PartialEq, Eq, Structural)]
pub enum UpdateLaw {
    /// The exponential law.
    Exponential,
    /// The linear-exponential law.
    LinearExponential,
}

/// `after` is what `law` makes of `before` over `dt_ms` milliseconds on
/// `gas` at a depth of `depth_msw` millionths of a metre of sea water, which
/// is an absolute pressure of `depth_pa` millionths of a pascal, with the
/// exponential function `exp_neg` and the logarithm `neg_ln`.
pub open spec fn state_updated<const NUM_TS: usize, F: Fn(i64) -> i64, G: Fn(i64) -> i64>(
    law: UpdateLaw,
    before: TissuesLoading<NUM_TS, Pa>,
    after: TissuesLoading<NUM_TS, Pa>,
    tissues: [Tissue; NUM_TS],
    m_values: MVALUES,
    gas: GasMix,
    depth_msw: int,
    depth_pa: int,
    dt_ms: int,
    exp_neg: F,
    neg_ln: G,
) -> bool {
    match law {
        UpdateLaw::Exponential => exp_updated(
            before,
            after,
            tissues,
            gas,
            depth_pa,
            dt_ms,
            exp_neg,
        ),
        UpdateLaw::LinearExponential => spec_row_idx(depth_msw) is Some && thalmann_updated(
            before,
            after,
            tissues,
            m_values,
            spec_row_idx(depth_msw)->Some_0,
            gas,
            depth_pa,
            dt_ms,
            exp_neg,
            neg_ln,
        ),
    }
}

/// A step of `law` over `delta_time` milliseconds at `current_depth` on
/// `breathing_gas`. The linear-exponential law refuses a depth that has no
/// row in the table, and leaves the loading as it is; the exponential law
/// refuses nothing.
pub fn update_model_state<
    P: Pressure,
    const NUM_TS: usize,
    F: Fn(i64) -> i64,
    G: Fn(i64) -> i64,
>(
    law: UpdateLaw,
    loading: &mut TissuesLoading<NUM_TS, Pa>,
    tissues: &[Tissue; NUM_TS],
    m_values: &MVALUES,
    breathing_gas: &GasMix,
    current_depth: P,
    delta_time: u64,
    exp_neg: &F,
    neg_ln: &G,
) -> (r: Result<(), DecoError>)
    requires
        NUM_TS <= NUM_TISSUES,
        total(*exp_neg),
        total(*neg_ln),
    ensures
        r is Err <==> law == UpdateLaw::LinearExponential && spec_row_idx(msw_of(current_depth))
            is None,
        r is Err ==> r->Err_0 == DecoError::InputOutOfRange && *final(loading) == *old(loading),
        r is Ok ==> state_updated(
            law,
            *old(loading),
            *final(loading),
            *tissues,
            *m_values,
            *breathing_gas,
            msw_of(current_depth),
            pa_of(current_depth),
            delta_time as int,
            *exp_neg,
            *neg_ln,
        ),
        none_moved_away(*old(loading), *final(loading), *breathing_gas, pa_of(current_depth)),
{
    match law {
        UpdateLaw::Exponential => {
            update_model_state_exp(
                loading,
                tissues,
                breathing_gas,
                current_depth,
                delta_time,
                exp_neg,
            );
            Ok(())
        },
        UpdateLaw::LinearExponential => update_model_state_thalmann(
            loading,
            tissues,
            m_values,
            breathing_gas,
            current_depth,
            delta_time,
            exp_neg,
            neg_ln,
        ),
    }
}

/// The time in milliseconds that a stop at `stop_depth` has to last under
/// `law`. Both laws take a compartment down to its M-value along the
/// exponential trajectory, so they ask for the same time.
pub fn compute_stop_time<const NUM_TS: usize, G: Fn(i64) -> i64>(
    law: UpdateLaw,
    loading: &TissuesLoading<NUM_TS, Pa>,
    tissues: &[Tissue; NUM_TS],
    breathing_gas: &GasMix,
    m_values: &MVALUES,
    stop_depth: msw,
    neg_ln: &G,
) -> (r: Result<u64, DecoError>)
    requires
        NUM_TS <= NUM_TISSUES,
        total(*neg_ln),
    ensures
        r is Err ==> r->Err_0 == DecoError::InputOutOfRange,
        spec_stop_row(stop_depth.0 as int) is None ==> r is Err,
        spec_stop_row(stop_depth.0 as int) is Some ==> stop_time_found(
            match r {
                Ok(millis) => Some(millis as int),
                Err(_) => None,
            },
            *loading,
            *tissues,
            *breathing_gas,
            *m_values,
            spec_stop_row(stop_depth.0 as int)->Some_0,
            pa_of(stop_depth),
            *neg_ln,
        ),
{
    match law {
        UpdateLaw::Exponential => compute_stop_time_exp(
            loading,
            tissues,
            breathing_gas,
            m_values,
            stop_depth,
            neg_ln,
        ),
        UpdateLaw::LinearExponential => compute_stop_time_thalmann(
            loading,
            tissues,
            breathing_gas,
            m_values,
            stop_depth,
            neg_ln,
        ),
    }
}

/// A stop of `millis` milliseconds at `depth` leads from the loading
/// `before` to the loading `after`: the stop lasts as long as the loading
/// needs at that depth, and the loading is what `law` makes of it in that
/// time.
pub open spec fn stop_served<const NUM_TS: usize, F: Fn(i64) -> i64, G: Fn(i64) -> i64>(
    before: TissuesLoading<NUM_TS, Pa>,
    after: TissuesLoading<NUM_TS, Pa>,
    depth: msw,
    millis: u64,
    tissues: [Tissue; NUM_TS],
    gas: GasMix,
    m_values: MVALUES,
    law: UpdateLaw,
    exp_neg: F,
    neg_ln: G,
) -> bool {
    &&& spec_stop_row(depth.0 as int) is Some
    &&& stop_time_found(
        Some(millis as int),
        before,
        tissues,
        gas,
        m_values,
        spec_stop_row(depth.0 as int)->Some_0,
        pa_of(depth),
        neg_ln,
    )
    &&& state_updated(
        law,
        before,
        after,
        tissues,
        m_values,
        gas,
        depth.0 as int,
        pa_of(depth),
        millis as int,
        exp_neg,
        neg_ln,
    )
}

/// `after` is `before` with the stop of `millis` milliseconds at `depth`
/// written into slot `slot`, and no gas named for it.
pub open spec fn stop_written<const NUM_STOPS: usize>(
    before: [Stop; NUM_STOPS],
    after: [Stop; NUM_STOPS],
    slot: int,
    depth: msw,
    millis: u64,
) -> bool {
    &&& after[slot].spec_depth() == depth
    &&& after[slot].spec_duration() == millis
    &&& after[slot].spec_gas() is None
    &&& forall|j: int| 0 <= j < NUM_STOPS && j != slot ==> (#[trigger] after[j]) == before[j]
}

/// One round of the solver leads from the loading `before` and the stops
/// `stops_before` to `after` and `stops_after`: the loading asks for a first
/// stop, the schedule has a slot for its depth and the slot is free, and the
/// stop is served and written down.
pub open spec fn stop_taken<
    const NUM_TS: usize,
    const NUM_STOPS: usize,
    F: Fn(i64) -> i64,
    G: Fn(i64) -> i64,
>(
    before: TissuesLoading<NUM_TS, Pa>,
    stops_before: [Stop; NUM_STOPS],
    after: TissuesLoading<NUM_TS, Pa>,
    stops_after: [Stop; NUM_STOPS],
    tissues: [Tissue; NUM_TS],
    gas: GasMix,
    m_values: MVALUES,
    law: UpdateLaw,
    exp_neg: F,
    neg_ln: G,
) -> bool {
    &&& spec_first_stop_depth(before, m_values) is Some
    &&& {
        let depth = spec_first_stop_depth(before, m_values)->Some_0;
        let slot = NUM_STOPS - 1 - spec_depth_idx(depth.0 as int);
        &&& 0 <= slot < NUM_STOPS
        &&& stops_before[slot].spec_duration() == 0
        &&& exists|millis: u64|
            #![trigger stop_written(stops_before, stops_after, slot, depth, millis)]
            {
                &&& stop_served(
                    before,
                    after,
                    depth,
                    millis,
                    tissues,
                    gas,
                    m_values,
                    law,
                    exp_neg,
                    neg_ln,
                )
                &&& stop_written(stops_before, stops_after, slot, depth, millis)
            }
    }
}

/// Each slot lies at its depth, and none holds a stop.
pub open spec fn blank_stops<const NUM_STOPS: usize>(stops: [Stop; NUM_STOPS]) -> bool {
    forall|j: int|
        0 <= j < NUM_STOPS ==> {
            &&& (#[trigger] stops[j]).spec_depth().0 == slot_depth(NUM_STOPS as int, j)
            &&& stops[j].spec_duration() == 0
            &&& stops[j].spec_gas() is None
        }
}

/// `rounds` rounds of the solver lead from the loading `start` and a
/// schedule without a stop to the loading `end` and the stops `stops`.
pub open spec fn scheduled<
    const NUM_TS: usize,
    const NUM_STOPS: usize,
    F: Fn(i64) -> i64,
    G: Fn(i64) -> i64,
>(
    start: TissuesLoading<NUM_TS, Pa>,
    end: TissuesLoading<NUM_TS, Pa>,
    stops: [Stop; NUM_STOPS],
    rounds: nat,
    tissues: [Tissue; NUM_TS],
    gas: GasMix,
    m_values: MVALUES,
    law: UpdateLaw,
    exp_neg: F,
    neg_ln: G,
) -> bool
    decreases rounds,
{
    if rounds == 0 {
        end == start && blank_stops(stops)
    } else {
        exists|mid: TissuesLoading<NUM_TS, Pa>, mid_stops: [Stop; NUM_STOPS]|
            #![trigger stop_taken(mid, mid_stops, end, stops, tissues, gas, m_values, law, exp_neg, neg_ln)]
            {
                &&& scheduled(
                    start,
                    mid,
                    mid_stops,
                    (rounds - 1) as nat,
                    tissues,
                    gas,
                    m_values,
                    law,
                    exp_neg,
                    neg_ln,
                )
                &&& stop_taken(
                    mid,
                    mid_stops,
                    end,
                    stops,
                    tissues,
                    gas,
                    m_values,
                    law,
                    exp_neg,
                    neg_ln,
                )
            }
    }
}

/// The solver cannot go on from the loading `at` and the stops `stops`
/// after `rounds` rounds. It lacks capacity where the first stop lies deeper
/// than the schedule has slots for. It is inconsistent where the slot of the
/// first stop holds a stop already, where no time at the stop brings the
/// loading under the M-values, or where as many rounds as the schedule has
/// slots have left a stop to make.
pub open spec fn stuck<const NUM_TS: usize, const NUM_STOPS: usize, G: Fn(i64) -> i64>(
    error: DecoError,
    at: TissuesLoading<NUM_TS, Pa>,
    stops: [Stop; NUM_STOPS],
    rounds: nat,
    tissues: [Tissue; NUM_TS],
    gas: GasMix,
    m_values: MVALUES,
    neg_ln: G,
) -> bool {
    &&& spec_first_stop_depth(at, m_values) is Some
    &&& {
        let depth = spec_first_stop_depth(at, m_values)->Some_0;
        let slot = NUM_STOPS - 1 - spec_depth_idx(depth.0 as int);
        if slot < 0 {
            error == DecoError::ScheduleCapacityExceeded
        } else {
            &&& error == DecoError::ScheduleConsistency
            &&& {
                ||| rounds == NUM_STOPS
                ||| stops[slot].spec_duration() != 0
                ||| stop_time_found(
                    None,
                    at,
                    tissues,
                    gas,
                    m_values,
                    spec_stop_row(depth.0 as int)->Some_0,
                    pa_of(depth),
                    neg_ln,
                )
            }
        }
    }
}

/// What the solver hands back for the loading `start`.
///
/// A schedule comes back exactly when some number of rounds, no more than
/// the schedule has slots, leads to a loading that asks for no stop; the
/// schedule holds the stops of those rounds. An error comes back when some
/// rounds lead to a loading from which the solver cannot go on.
pub open spec fn solved<
    const NUM_TS: usize,
    const NUM_STOPS: usize,
    F: Fn(i64) -> i64,
    G: Fn(i64) -> i64,
>(
    result: Result<StopSchedule<NUM_STOPS>, DecoError>,
    start: TissuesLoading<NUM_TS, Pa>,
    tissues: [Tissue; NUM_TS],
    gas: GasMix,
    m_values: MVALUES,
    law: UpdateLaw,
    exp_neg: F,
    neg_ln: G,
) -> bool {
    exists|end: TissuesLoading<NUM_TS, Pa>, stops: [Stop; NUM_STOPS], rounds: nat|
        #![trigger scheduled(start, end, stops, rounds, tissues, gas, m_values, law, exp_neg, neg_ln)]
        {
            &&& rounds <= NUM_STOPS
            &&& scheduled(start, end, stops, rounds, tissues, gas, m_values, law, exp_neg, neg_ln)
            &&& match result {
                Ok(schedule) => schedule.spec_stops() == stops && spec_first_stop_depth(
                    end,
                    m_values,
                ) is None,
                Err(error) => stuck(error, end, stops, rounds, tissues, gas, m_values, neg_ln),
            }
        }
}

/// The first stop of a loading under a table on the grid lies at a positive
/// depth, and the number of its depth on the stop grid is one more than its
/// row.
pub proof fn lemma_first_stop_on_grid<const NUM_TS: usize>(
    p: TissuesLoading<NUM_TS, Pa>,
    m_values: MVALUES,
)
    requires
        on_grid(m_values),
        spec_first_stop_depth(p, m_values) is Some,
    ensures
        spec_first_stop_row(p, m_values) is Some,
        0 <= spec_first_stop_row(p, m_values)->Some_0 < NUM_STOP_DEPTHS,
        spec_first_stop_depth(p, m_values)->Some_0.0 == table_depth(
            spec_first_stop_row(p, m_values)->Some_0,
        ),
        spec_depth_idx(spec_first_stop_depth(p, m_values)->Some_0.0 as int) == spec_first_stop_row(
            p,
            m_values,
        )->Some_0 + 1,
{
    lemma_deepest_exceeded(p, m_values, NUM_STOP_DEPTHS as nat);
    let row = spec_first_stop_row(p, m_values)->Some_0;
    assert(m_values[row].depth.0 == table_depth(row));
}

/// The stops that bring the loading `loading` to the surface on
/// `breathing_gas`, under the table `m_values` and the law `law`.
///
/// As long as the loading asks for a first stop, the stop is given the time
/// that the loading needs at its depth, the loading is taken through that
/// time, and the stop is written into the slot of its depth. The caller's
/// loading is left as it is.
pub fn calc_deco_schedule_intern<
    const NUM_TS: usize,
    const NUM_STOPS: usize,
    F: Fn(i64) -> i64,
    G: Fn(i64) -> i64,
>(
    loading: &TissuesLoading<NUM_TS, Pa>,
    tissues: &[Tissue; NUM_TS],
    breathing_gas: &GasMix,
    m_values: &MVALUES,
    law: UpdateLaw,
    exp_neg: &F,
    neg_ln: &G,
) -> (r: Result<StopSchedule<NUM_STOPS>, DecoError>)
    requires
        NUM_STOPS < NUM_STOP_DEPTHS,
        NUM_TS <= NUM_TISSUES,
        on_grid(*m_values),
        total(*exp_neg),
        total(*neg_ln),
    ensures
        solved(r, *loading, *tissues, *breathing_gas, *m_values, law, *exp_neg, *neg_ln),
        r is Ok ==> r->Ok_0.on_grid(),
        r is Err ==> r->Err_0 == DecoError::ScheduleCapacityExceeded || r->Err_0
            == DecoError::ScheduleConsistency,
        spec_first_stop_depth(*loading, *m_values) is None ==> r is Ok && r->Ok_0.blank(),
        spec_first_stop_depth(*loading, *m_values) is Some && spec_depth_idx(
            spec_first_stop_depth(*loading, *m_values)->Some_0.0 as int,
        ) >= NUM_STOPS ==> r == Err::<StopSchedule<NUM_STOPS>, DecoError>(
            DecoError::ScheduleCapacityExceeded,
        ),
{
    let mut current: TissuesLoading<NUM_TS, Pa> = *loading;
    let mut stops: [Stop; NUM_STOPS] = StopSchedule::<NUM_STOPS>::default().stops();
    let mut rounds: usize = 0;
    loop
        invariant
            rounds <= NUM_STOPS,
            NUM_STOPS < NUM_STOP_DEPTHS,
            NUM_TS <= NUM_TISSUES,
            on_grid(*m_values),
            total(*exp_neg),
            total(*neg_ln),
            scheduled(
                *loading,
                current,
                stops,
                rounds as nat,
                *tissues,
                *breathing_gas,
                *m_values,
                law,
                *exp_neg,
                *neg_ln,
            ),
            forall|j: int|
                0 <= j < NUM_STOPS ==> (#[trigger] stops[j]).spec_depth().0 == slot_depth(
                    NUM_STOPS as int,
                    j,
                ),
            rounds == 0 ==> current == *loading && blank_stops(stops),
            rounds > 0 ==> spec_first_stop_depth(*loading, *m_values) is Some && spec_depth_idx(
                spec_first_stop_depth(*loading, *m_values)->Some_0.0 as int,
            ) < NUM_STOPS,
        decreases NUM_STOPS - rounds,
    {
        let stop_depth: msw = match first_stop_depth(&current, m_values) {
            Some(depth) => depth,
            None => {
                return Ok(StopSchedule::new(stops));
            },
        };
        proof {
            lemma_first_stop_on_grid(current, *m_values);
        }
        let depth_idx: usize = match get_depth_idx(stop_depth) {
            Ok(idx) => idx,
            Err(_) => {
                return Err(DecoError::ScheduleConsistency);
            },
        };
        if depth_idx >= NUM_STOPS {
            return Err(DecoError::ScheduleCapacityExceeded);
        }
        let slot: usize = stop_idx_in_stops(NUM_STOPS, depth_idx);
        if rounds == NUM_STOPS || stops[slot].duration() != 0 {
            return Err(DecoError::ScheduleConsistency);
        }
        let stop_duration: u64 = match compute_stop_time(
            law,
            &current,
            tissues,
            breathing_gas,
            m_values,
            stop_depth,
            neg_ln,
        ) {
            Ok(millis) => millis,
            Err(_) => {
                return Err(DecoError::ScheduleConsistency);
            },
        };
        let ghost before = current;
        let ghost stops_before = stops;
        let updated = update_model_state(
            law,
            &mut current,
            tissues,
            m_values,
            breathing_gas,
            stop_depth,
            stop_duration,
            exp_neg,
            neg_ln,
        );
        assert(updated is Ok);
        stops[slot] = Stop::new(stop_depth, stop_duration, None);
        proof {
            assert(slot_depth(NUM_STOPS as int, slot as int) == stop_depth.0);
            assert(stop_written(stops_before, stops, slot as int, stop_depth, stop_duration));
            assert(stop_served(
                before,
                current,
                stop_depth,
                stop_duration,
                *tissues,
                *breathing_gas,
                *m_values,
                law,
                *exp_neg,
                *neg_ln,
            ));
            assert(stop_taken(
                before,
                stops_before,
                current,
                stops,
                *tissues,
                *breathing_gas,
                *m_values,
                law,
                *exp_neg,
                *neg_ln,
            ));
        }
        rounds = rounds + 1;
    }
}

/// The slot of a schedule of `num_stops` slots that belongs to the depth
/// with number `i` on the stop grid.
pub fn stop_idx_in_stops(num_stops: usize, i: usize) -> (r: usize)
    requires
        i < num_stops,
    ensures
        r == num_stops - 1 - i,
{
    num_stops - 1 - i
}

/// The table of M-values that the library works with: XVAL-HE9-040 as it
/// was published.
pub fn mvalues_he9_040() -> (r: MVALUES)
    ensures
        is_xval_he9_040(r),
{
    set_m(0)
}

/// The stops that bring the loading `loading` to the surface on
/// `breathing_gas`, for the five compartments of the model under the table
/// XVAL-HE9-040.
pub fn calc_deco_schedule<const NUM_STOPS: usize, F: Fn(i64) -> i64, G: Fn(i64) -> i64>(
    loading: &TissuesLoading<NUM_TISSUES, Pa>,
    breathing_gas: &GasMix,
    law: UpdateLaw,
    exp_neg: &F,
    neg_ln: &G,
) -> (r: Result<StopSchedule<NUM_STOPS>, DecoError>)
    requires
        NUM_STOPS < NUM_STOP_DEPTHS,
        total(*exp_neg),
        total(*neg_ln),
    ensures
        exists|model: [Tissue; NUM_TISSUES], m_values: MVALUES|
            #![trigger solved(r, *loading, model, *breathing_gas, m_values, law, *exp_neg, *neg_ln)]
            {
                &&& are_model_tissues(model)
                &&& is_xval_he9_040(m_values)
                &&& solved(r, *loading, model, *breathing_gas, m_values, law, *exp_neg, *neg_ln)
                &&& spec_first_stop_depth(*loading, m_values) is None ==> r is Ok
                    && r->Ok_0.blank()
                &&& spec_first_stop_depth(*loading, m_values) is Some && spec_depth_idx(
                    spec_first_stop_depth(*loading, m_values)->Some_0.0 as int,
                ) >= NUM_STOPS ==> r == Err::<StopSchedule<NUM_STOPS>, DecoError>(
                    DecoError::ScheduleCapacityExceeded,
                )
            },
        r is Ok ==> r->Ok_0.on_grid(),
        r is Err ==> r->Err_0 == DecoError::ScheduleCapacityExceeded || r->Err_0
            == DecoError::ScheduleConsistency,
{
    let model: [Tissue; NUM_TISSUES] = tissues();
    let m_values: MVALUES = mvalues_he9_040();
    calc_deco_schedule_intern(loading, &model, breathing_gas, &m_values, law, exp_neg, neg_ln)
}

/// How a dive that was followed has ended.
#[derive(Debug, Clone, PartialEq)]
pub enum ThalmannResult {
    FinishedResult { iterations: usize, reason: &'static str },
    ErrorResult { reason: &'static str },
}

/// What the loop that follows a dive keeps from one reading of the clock to
/// the next: the last reading in milliseconds, the number of readings it has
/// worked on, and the depth that the diver may rise to.
#[derive(Debug, Clone, Copy)]
pub struct DriverState {
    pub prev_ms: u64,
    pub iterations: usize,
    pub current_maximum_allowed_depth: msw,
}

/// What a reading of the clock has led to.
#[derive(Debug, Clone, PartialEq)]
pub enum DriverStep {
    /// The clock has not moved on: read it again.
    Wait,
    /// The loading was taken up to the reading and a stop remains. The time
    /// that the stop asks for is given where it has one.
    Continue { stop_time: Option<u64> },
    /// The dive has ended.
    Done(ThalmannResult),
}

/// `count` and one more, held to the largest count.
pub open spec fn next_count(count: usize) -> usize {
    if count == usize::MAX {
        count
    } else {
        (count + 1) as usize
    }
}

/// The start of the loop that follows a dive to `max_depth`. The dive is
/// refused where it has not gone as deep as the last stop.
pub fn thalmann_start<P: Pressure>(max_depth: P) -> (r: Result<DriverState, ThalmannResult>)
    ensures
        msw_of(max_depth) < LAST_STOP ==> r == Err::<DriverState, ThalmannResult>(
            ThalmannResult::ErrorResult { reason: "Maximum depth is shallower than the last stop." },
        ),
        msw_of(max_depth) >= LAST_STOP ==> r == Ok::<DriverState, ThalmannResult>(
            DriverState {
                prev_ms: 0,
                iterations: 0,
                current_maximum_allowed_depth: msw(msw_of(max_depth) as i64),
            },
        ),
{
    let depth: msw = max_depth.to_msw();
    if depth.0 < LAST_STOP {
        return Err(
            ThalmannResult::ErrorResult { reason: "Maximum depth is shallower than the last stop." },
        );
    }
    initialize_profile();
    let _model_state = initialize_model_state();
    Ok(DriverState { prev_ms: 0, iterations: 0, current_maximum_allowed_depth: depth })
}

/// What a reading `now_ms` of the clock leads to, from the state `before`
/// and the loading `loading_before` to the state `after`, the loading
/// `loading_after` and the step `step`.
///
/// A reading that is not later than the last one changes nothing. Any
/// other is counted. At or above the surface the dive has ended. Else the
/// loading is taken through the time since the last reading, at the depth
/// that the diver may rise to and on the first gas; where the law refuses
/// that depth the dive ends with an error. Where the loading then asks for
/// no stop the dive has ended; else the first stop is the depth that the
/// diver may rise to from now on.
pub open spec fn driver_stepped<const NUM_GASES: usize, F: Fn(i64) -> i64, G: Fn(i64) -> i64>(
    before: DriverState,
    after: DriverState,
    loading_before: TissuesLoading<NUM_TISSUES, Pa>,
    loading_after: TissuesLoading<NUM_TISSUES, Pa>,
    step: DriverStep,
    model: [Tissue; NUM_TISSUES],
    m_values: MVALUES,
    gases: [GasMix; NUM_GASES],
    now_ms: u64,
    law: UpdateLaw,
    exp_neg: F,
    neg_ln: G,
) -> bool {
    let depth = before.current_maximum_allowed_depth;
    let count = next_count(before.iterations);
    if now_ms <= before.prev_ms {
        step == DriverStep::Wait && after == before && loading_after == loading_before
    } else if depth.0 <= 0 {
        &&& step == DriverStep::Done(
            ThalmannResult::FinishedResult { iterations: count, reason: "surfaced" },
        )
        &&& after == (DriverState { iterations: count, ..before })
        &&& loading_after == loading_before
    } else if law == UpdateLaw::LinearExponential && spec_row_idx(depth.0 as int) is None {
        &&& step == DriverStep::Done(ThalmannResult::ErrorResult { reason: "Depth is out of range." })
        &&& after == (DriverState { iterations: count, prev_ms: now_ms, ..before })
        &&& loading_after == loading_before
    } else {
        &&& state_updated(
            law,
            loading_before,
            loading_after,
            model,
            m_values,
            gases[0],
            depth.0 as int,
            pa_of(depth),
            now_ms - before.prev_ms,
            exp_neg,
            neg_ln,
        )
        &&& match spec_first_stop_depth(loading_after, m_values) {
            None => {
                &&& step == DriverStep::Done(
                    ThalmannResult::FinishedResult { iterations: count, reason: "no stop remaining" },
                )
                &&& after == (DriverState { iterations: count, prev_ms: now_ms, ..before })
            },
            Some(first) => {
                &&& after == (DriverState {
                    iterations: count,
                    prev_ms: now_ms,
                    current_maximum_allowed_depth: first,
                })
                &&& step is Continue
                &&& match spec_stop_row(first.0 as int) {
                    None => step->stop_time is None,
                    Some(row) => stop_time_found(
                        match step->stop_time {
                            Some(millis) => Some(millis as int),
                            None => None,
                        },
                        loading_after,
                        model,
                        gases[0],
                        m_values,
                        row,
                        pa_of(first),
                        neg_ln,
                    ),
                }
            },
        }
    }
}

/// One step of the loop that follows a dive: the reading `now_ms` of the
/// clock is worked on, for the five compartments of the model under the
/// table XVAL-HE9-040. The caller reads the clock and calls again until the
/// step is `Done`.
pub fn thalmann_step<const NUM_GASES: usize, F: Fn(i64) -> i64, G: Fn(i64) -> i64>(
    state: &mut DriverState,
    loading: &mut TissuesLoading<NUM_TISSUES, Pa>,
    gases: &[GasMix; NUM_GASES],
    now_ms: u64,
    law: UpdateLaw,
    exp_neg: &F,
    neg_ln: &G,
) -> (r: DriverStep)
    requires
        NUM_GASES >= 1,
        total(*exp_neg),
        total(*neg_ln),
    ensures
        exists|model: [Tissue; NUM_TISSUES], m_values: MVALUES|
            #![trigger driver_stepped(*old(state), *final(state), *old(loading), *final(loading), r, model, m_values, *gases, now_ms, law, *exp_neg, *neg_ln)]
            {
                &&& are_model_tissues(model)
                &&& is_xval_he9_040(m_values)
                &&& driver_stepped(
                    *old(state),
                    *final(state),
                    *old(loading),
                    *final(loading),
                    r,
                    model,
                    m_values,
                    *gases,
                    now_ms,
                    law,
                    *exp_neg,
                    *neg_ln,
                )
            },
        none_moved_away(
            *old(loading),
            *final(loading),
            gases[0],
            pa_of(old(state).current_maximum_allowed_depth),
        ),
{
    let model: [Tissue; NUM_TISSUES] = tissues();
    let m_values: MVALUES = mvalues_he9_040();
    if now_ms <= state.prev_ms {
        assert(driver_stepped(
            *old(state),
            *state,
            *old(loading),
            *loading,
            DriverStep::Wait,
            model,
            m_values,
            *gases,
            now_ms,
            law,
            *exp_neg,
            *neg_ln,
        ));
        return DriverStep::Wait;
    }
    let current_gas: usize = 0;
    let count: usize = if state.iterations == usize::MAX {
        usize::MAX
    } else {
        state.iterations + 1
    };
    state.iterations = count;
    let current_depth: msw = state.current_maximum_allowed_depth;
    if current_depth.0 <= 0 {
        let step = DriverStep::Done(
            ThalmannResult::FinishedResult { iterations: count, reason: "surfaced" },
        );
        assert(driver_stepped(
            *old(state),
            *state,
            *old(loading),
            *loading,
            step,
            model,
            m_values,
            *gases,
            now_ms,
            law,
            *exp_neg,
            *neg_ln,
        ));
        return step;
    }
    let duration: u64 = now_ms - state.prev_ms;
    state.prev_ms = now_ms;
    match update_model_state(
        law,
        loading,
        &model,
        &m_values,
        &gases[current_gas],
        current_depth,
        duration,
        exp_neg,
        neg_ln,
    ) {
        Ok(()) => {},
        Err(_) => {
            let step = DriverStep::Done(
                ThalmannResult::ErrorResult { reason: "Depth is out of range." },
            );
            assert(driver_stepped(
                *old(state),
                *state,
                *old(loading),
                *loading,
                step,
                model,
                m_values,
                *gases,
                now_ms,
                law,
                *exp_neg,
                *neg_ln,
            ));
            return step;
        },
    }
    let first_stop: msw = match first_stop_depth(loading, &m_values) {
        Some(depth) => depth,
        None => {
            let step = DriverStep::Done(
                ThalmannResult::FinishedResult { iterations: count, reason: "no stop remaining" },
            );
            assert(driver_stepped(
                *old(state),
                *state,
                *old(loading),
                *loading,
                step,
                model,
                m_values,
                *gases,
                now_ms,
                law,
                *exp_neg,
                *neg_ln,
            ));
            return step;
        },
    };
    state.current_maximum_allowed_depth = first_stop;
    let stop_time: Option<u64> = match compute_stop_time(
        law,
        loading,
        &model,
        &gases[current_gas],
        &m_values,
        first_stop,
        neg_ln,
    ) {
        Ok(millis) => Some(millis),
        Err(_) => None,
    };
    let step = DriverStep::Continue { stop_time };
    assert(driver_stepped(
        *old(state),
        *state,
        *old(loading),
        *loading,
        step,
        model,
        m_values,
        *gases,
        now_ms,
        law,
        *exp_neg,
        *neg_ln,
    ));
    step
}

} // verus!
