use thalmann::dive::StopSchedule;
use thalmann::gas::{air, GasMix, TissuesLoading};
use thalmann::mptt::{tissues, xval_he9_040};
use thalmann::pressure_unit::Pa;
use thalmann::thalmann::{stop_idx_in_stops, update_model_state};
use thalmann::update::first_stop_depth;
use thalmann::{calc_deco_schedule, calc_deco_schedule_intern, DecoError, UpdateLaw};

const ONE: i64 = 1_000_000_000_000;

fn exp_neg(x: i64) -> i64 {
    ((-(x as f64) / 1e12).exp() * 1e12).round() as i64
}

fn neg_ln(q: i64) -> i64 {
    (-((q as f64) / 1e12).ln() * 1e12).round() as i64
}

fn oxygen() -> GasMix {
    GasMix::new(ONE as u64, 0).unwrap()
}

fn surface_loading() -> TissuesLoading<5, Pa> {
    TissuesLoading::new(Pa::new(101_300_000_000), &air())
}

fn loaded(first_n2: i64) -> TissuesLoading<5, Pa> {
    let mut l = surface_loading();
    l.n2[0] = Pa::new(first_n2);
    l
}

fn durations<const S: usize>(s: &StopSchedule<S>) -> Vec<u64> {
    s.stops().iter().map(|stop| stop.duration()).collect()
}

fn depths<const S: usize>(s: &StopSchedule<S>) -> Vec<i64> {
    s.stops().iter().map(|stop| stop.depth().0).collect()
}

#[test]
fn slot_of_a_depth_number() {
    assert_eq!(stop_idx_in_stops(4, 0), 3);
    assert_eq!(stop_idx_in_stops(4, 3), 0);
    assert_eq!(stop_idx_in_stops(1, 0), 0);
}

#[test]
fn no_decompression_after_no_dive() {
    let l = surface_loading();
    assert!(first_stop_depth(&l, &xval_he9_040()).is_none());
    for law in [UpdateLaw::Exponential, UpdateLaw::LinearExponential] {
        let s: StopSchedule<4> = calc_deco_schedule(&l, &air(), law, &exp_neg, &neg_ln).unwrap();
        assert_eq!(durations(&s), vec![0, 0, 0, 0]);
        assert_eq!(depths(&s), vec![9_000_000, 6_000_000, 3_000_000, 0]);
        assert!(s.first_stop().is_none());
    }
}

#[test]
fn schedule_without_a_stop_calls_no_outside_function() {
    let l = surface_loading();
    let s: StopSchedule<4> =
        calc_deco_schedule(&l, &air(), UpdateLaw::Exponential, &|_x: i64| 0, &|_q: i64| 0).unwrap();
    assert_eq!(durations(&s), vec![0, 0, 0, 0]);
}

#[test]
fn schedule_of_two_stops_under_the_exponential_law() {
    let l = loaded(397_942_604_584);
    let s: StopSchedule<4> =
        calc_deco_schedule(&l, &oxygen(), UpdateLaw::Exponential, &exp_neg, &neg_ln).unwrap();
    assert_eq!(durations(&s), vec![0, 13_184, 69_319, 0]);
    assert_eq!(depths(&s), vec![9_000_000, 6_000_000, 3_000_000, 0]);
    assert_eq!(s.first_stop().map(|stop| stop.depth().0), Some(6_000_000));
    assert!(s.stops().iter().all(|stop| stop.gas().is_none()));
}

#[test]
fn schedule_of_two_stops_under_the_linear_exponential_law() {
    let l = loaded(397_942_604_584);
    let s: StopSchedule<4> =
        calc_deco_schedule(&l, &oxygen(), UpdateLaw::LinearExponential, &exp_neg, &neg_ln).unwrap();
    assert_eq!(durations(&s), vec![0, 13_184, 68_405, 0]);
}

#[test]
fn schedule_in_a_larger_array_sits_at_its_end() {
    let l = loaded(397_942_604_584);
    let s: StopSchedule<31> =
        calc_deco_schedule(&l, &oxygen(), UpdateLaw::Exponential, &exp_neg, &neg_ln).unwrap();
    let d = durations(&s);
    assert_eq!(d[28], 13_184);
    assert_eq!(d[29], 69_319);
    assert_eq!(d.iter().filter(|t| **t != 0).count(), 2);
    assert_eq!(depths(&s)[0], 90_000_000);
}

#[test]
fn following_the_schedule_leaves_no_stop() {
    let model = tissues();
    let table = xval_he9_040();
    for law in [UpdateLaw::Exponential, UpdateLaw::LinearExponential] {
        let start = loaded(397_942_604_584);
        let s: StopSchedule<4> =
            calc_deco_schedule_intern(&start, &model, &oxygen(), &table, law, &exp_neg, &neg_ln)
                .unwrap();
        let mut l = start;
        for stop in s.stops().iter().filter(|stop| stop.duration() != 0) {
            assert_eq!(first_stop_depth(&l, &table).map(|d| d.0), Some(stop.depth().0));
            let r = update_model_state(
                law,
                &mut l,
                &model,
                &table,
                &oxygen(),
                stop.depth(),
                stop.duration(),
                &exp_neg,
                &neg_ln,
            );
            assert_eq!(r, Ok(()));
        }
        assert!(first_stop_depth(&l, &table).is_none());
    }
}

#[test]
fn schedule_leaves_the_loading_of_the_caller_alone() {
    let l = loaded(397_942_604_584);
    let before = (l.n2.map(|p| p.0), l.he.map(|p| p.0));
    let ok: Result<StopSchedule<4>, DecoError> =
        calc_deco_schedule(&l, &oxygen(), UpdateLaw::Exponential, &exp_neg, &neg_ln);
    assert!(ok.is_ok());
    let short: Result<StopSchedule<2>, DecoError> =
        calc_deco_schedule(&l, &oxygen(), UpdateLaw::Exponential, &exp_neg, &neg_ln);
    assert!(short.is_err());
    assert_eq!((l.n2.map(|p| p.0), l.he.map(|p| p.0)), before);
}

#[test]
fn schedule_without_room_for_the_first_stop() {
    let l = loaded(397_942_604_584);
    // The first stop lies at 6 m, the depth with number 2.
    let r: Result<StopSchedule<2>, DecoError> =
        calc_deco_schedule(&l, &oxygen(), UpdateLaw::Exponential, &exp_neg, &neg_ln);
    assert_eq!(r.err(), Some(DecoError::ScheduleCapacityExceeded));
    let r: Result<StopSchedule<0>, DecoError> =
        calc_deco_schedule(&l, &oxygen(), UpdateLaw::Exponential, &exp_neg, &neg_ln);
    assert_eq!(r.err(), Some(DecoError::ScheduleCapacityExceeded));
    let r: Result<StopSchedule<3>, DecoError> =
        calc_deco_schedule(&l, &oxygen(), UpdateLaw::Exponential, &exp_neg, &neg_ln);
    assert!(r.is_ok());
}

#[test]
fn schedule_on_a_gas_that_cannot_clear_the_stop() {
    // On air the nitrogen at the stop is breathed above the M-value: the
    // stop gets no time, the loading stays as it is, and the stop comes up
    // again.
    let l = loaded(397_942_604_584);
    for law in [UpdateLaw::Exponential, UpdateLaw::LinearExponential] {
        let r: Result<StopSchedule<4>, DecoError> =
            calc_deco_schedule(&l, &air(), law, &exp_neg, &neg_ln);
        assert_eq!(r.err(), Some(DecoError::ScheduleConsistency));
    }
}

#[test]
fn schedule_with_an_exponential_function_that_does_not_decay() {
    // With a retention of one the stop changes nothing and a second visit
    // finds the slot taken.
    let l = loaded(397_942_604_584);
    let r: Result<StopSchedule<4>, DecoError> =
        calc_deco_schedule(&l, &oxygen(), UpdateLaw::Exponential, &|_x: i64| ONE, &neg_ln);
    assert_eq!(r.err(), Some(DecoError::ScheduleConsistency));
}

#[test]
fn schedule_with_a_logarithm_that_gives_no_time() {
    // Stops of no time leave the slots free; the rounds run out.
    let l = loaded(397_942_604_584);
    let r: Result<StopSchedule<4>, DecoError> =
        calc_deco_schedule(&l, &oxygen(), UpdateLaw::Exponential, &exp_neg, &|_q: i64| 0);
    assert_eq!(r.err(), Some(DecoError::ScheduleConsistency));
}
