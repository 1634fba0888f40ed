use thalmann::gas::{air, GasMix, TissuesLoading};
use thalmann::pressure_unit::{msw, Bar, Pa};
use thalmann::{thalmann_start, thalmann_step, DriverState, DriverStep, ThalmannResult, UpdateLaw};

const ONE: i64 = 1_000_000_000_000;

fn exp_neg(x: i64) -> i64 {
    ((-(x as f64) / 1e12).exp() * 1e12).round() as i64
}

fn neg_ln(q: i64) -> i64 {
    (-((q as f64) / 1e12).ln() * 1e12).round() as i64
}

fn oxygen() -> GasMix {
    GasMix::new(ONE as u64, 0).unwrap()
}

fn surface_loading() -> TissuesLoading<5, Pa> {
    TissuesLoading::new(Pa::new(101_300_000_000), &air())
}

fn loaded(first_n2: i64) -> TissuesLoading<5, Pa> {
    let mut l = surface_loading();
    l.n2[0] = Pa::new(first_n2);
    l
}

#[test]
fn dive_shallower_than_the_last_stop_is_refused() {
    for depth in [5_999_999, 0, -1] {
        assert_eq!(
            thalmann_start(msw::new(depth)).err(),
            Some(ThalmannResult::ErrorResult {
                reason: "Maximum depth is shallower than the last stop."
            })
        );
    }
    assert!(thalmann_start(Bar::new(1_000_000)).is_err());
}

#[test]
fn dive_to_the_last_stop_or_deeper_starts() {
    let state = thalmann_start(msw::new(6_000_000)).unwrap();
    assert_eq!(state.prev_ms, 0);
    assert_eq!(state.iterations, 0);
    assert_eq!(state.current_maximum_allowed_depth.0, 6_000_000);
    let state = thalmann_start(Pa::new(1_316_900_000_000)).unwrap();
    assert_eq!(state.current_maximum_allowed_depth.0, 12_000_000);
}

#[test]
fn clock_that_has_not_moved_on_is_waited_for() {
    let mut state = thalmann_start(msw::new(12_000_000)).unwrap();
    let mut l = loaded(397_942_604_584);
    let gases = [oxygen()];
    let step = thalmann_step(&mut state, &mut l, &gases, 0, UpdateLaw::Exponential, &exp_neg, &neg_ln);
    assert_eq!(step, DriverStep::Wait);
    assert_eq!((state.prev_ms, state.iterations), (0, 0));
    assert_eq!(l.n2[0].0, 397_942_604_584);
    let _ = thalmann_step(&mut state, &mut l, &gases, 1000, UpdateLaw::Exponential, &exp_neg, &neg_ln);
    let held = l.n2[0].0;
    for now in [1000, 999, 0] {
        let step =
            thalmann_step(&mut state, &mut l, &gases, now, UpdateLaw::Exponential, &exp_neg, &neg_ln);
        assert_eq!(step, DriverStep::Wait);
        assert_eq!((state.prev_ms, state.iterations), (1000, 1));
        assert_eq!(l.n2[0].0, held);
    }
}

#[test]
fn dive_without_a_loading_ends_at_the_first_reading() {
    for law in [UpdateLaw::Exponential, UpdateLaw::LinearExponential] {
        let mut state = thalmann_start(msw::new(12_000_000)).unwrap();
        let mut l = surface_loading();
        let gases = [oxygen(), air()];
        let step = thalmann_step(&mut state, &mut l, &gases, 1000, law, &exp_neg, &neg_ln);
        assert_eq!(
            step,
            DriverStep::Done(ThalmannResult::FinishedResult {
                iterations: 1,
                reason: "no stop remaining"
            })
        );
        assert_eq!(state.prev_ms, 1000);
        assert_eq!(state.current_maximum_allowed_depth.0, 12_000_000);
    }
}

#[test]
fn dive_is_followed_from_stop_to_stop_under_the_exponential_law() {
    let mut state = thalmann_start(msw::new(12_000_000)).unwrap();
    let mut l = loaded(397_942_604_584);
    let gases = [oxygen()];
    let law = UpdateLaw::Exponential;
    let step = thalmann_step(&mut state, &mut l, &gases, 1000, law, &exp_neg, &neg_ln);
    assert_eq!(step, DriverStep::Continue { stop_time: Some(12_184) });
    assert_eq!(state.current_maximum_allowed_depth.0, 6_000_000);
    assert_eq!((state.prev_ms, state.iterations), (1000, 1));
    assert_eq!(l.n2[0].0, 397_483_148_703);
    let step = thalmann_step(&mut state, &mut l, &gases, 2000, law, &exp_neg, &neg_ln);
    assert_eq!(step, DriverStep::Continue { stop_time: Some(11_184) });
    let step = thalmann_step(&mut state, &mut l, &gases, 30_000, law, &exp_neg, &neg_ln);
    assert_eq!(step, DriverStep::Continue { stop_time: Some(52_503) });
    assert_eq!(state.current_maximum_allowed_depth.0, 3_000_000);
    let step = thalmann_step(&mut state, &mut l, &gases, 200_000, law, &exp_neg, &neg_ln);
    assert_eq!(
        step,
        DriverStep::Done(ThalmannResult::FinishedResult {
            iterations: 4,
            reason: "no stop remaining"
        })
    );
    assert_eq!(l.n2[0].0, 315_847_254_569);
    assert_eq!(state.prev_ms, 200_000);
}

#[test]
fn dive_is_followed_from_stop_to_stop_under_the_linear_exponential_law() {
    let mut state = thalmann_start(msw::new(12_000_000)).unwrap();
    let mut l = loaded(397_942_604_584);
    let gases = [oxygen()];
    let law = UpdateLaw::LinearExponential;
    let step = thalmann_step(&mut state, &mut l, &gases, 1000, law, &exp_neg, &neg_ln);
    assert_eq!(step, DriverStep::Continue { stop_time: Some(11_970) });
    let step = thalmann_step(&mut state, &mut l, &gases, 2000, law, &exp_neg, &neg_ln);
    assert_eq!(step, DriverStep::Continue { stop_time: Some(10_908) });
    let step = thalmann_step(&mut state, &mut l, &gases, 30_000, law, &exp_neg, &neg_ln);
    assert_eq!(step, DriverStep::Continue { stop_time: Some(49_925) });
    let step = thalmann_step(&mut state, &mut l, &gases, 200_000, law, &exp_neg, &neg_ln);
    assert_eq!(
        step,
        DriverStep::Done(ThalmannResult::FinishedResult {
            iterations: 4,
            reason: "no stop remaining"
        })
    );
    assert_eq!(l.n2[0].0, 306_273_102_861);
}

#[test]
fn diver_at_the_surface_has_surfaced() {
    for depth in [0, -1] {
        let mut state = DriverState {
            prev_ms: 10,
            iterations: 7,
            current_maximum_allowed_depth: msw::new(depth),
        };
        let mut l = loaded(397_942_604_584);
        let gases = [oxygen()];
        let step =
            thalmann_step(&mut state, &mut l, &gases, 11, UpdateLaw::Exponential, &exp_neg, &neg_ln);
        assert_eq!(
            step,
            DriverStep::Done(ThalmannResult::FinishedResult { iterations: 8, reason: "surfaced" })
        );
        assert_eq!(l.n2[0].0, 397_942_604_584);
        assert_eq!((state.prev_ms, state.iterations), (10, 8));
    }
}

#[test]
fn depth_under_the_table_ends_the_dive_under_the_linear_exponential_law() {
    let mut state = thalmann_start(msw::new(100_000_000)).unwrap();
    let mut l = surface_loading();
    let gases = [air()];
    let step = thalmann_step(
        &mut state,
        &mut l,
        &gases,
        5,
        UpdateLaw::LinearExponential,
        &exp_neg,
        &neg_ln,
    );
    assert_eq!(
        step,
        DriverStep::Done(ThalmannResult::ErrorResult { reason: "Depth is out of range." })
    );
    assert_eq!(l.n2.map(|p| p.0), [80_026_473_240; 5]);
    // The exponential law reads no table.
    let mut state = thalmann_start(msw::new(100_000_000)).unwrap();
    let step =
        thalmann_step(&mut state, &mut l, &gases, 5, UpdateLaw::Exponential, &exp_neg, &neg_ln);
    assert_eq!(
        step,
        DriverStep::Done(ThalmannResult::FinishedResult {
            iterations: 1,
            reason: "no stop remaining"
        })
    );
}

#[test]
fn stop_without_a_finite_time_is_shown_as_none() {
    // The second tissue exceeds its M-value at 3 m, where air gives
    // nitrogen at a pressure between that M-value and the tension.
    let mut state = thalmann_start(msw::new(12_000_000)).unwrap();
    let mut l = surface_loading();
    l.n2[1] = Pa::new(325_000_000_000);
    let gases = [air()];
    let step =
        thalmann_step(&mut state, &mut l, &gases, 1, UpdateLaw::Exponential, &exp_neg, &neg_ln);
    assert_eq!(step, DriverStep::Continue { stop_time: None });
    assert_eq!(state.current_maximum_allowed_depth.0, 3_000_000);
}

#[test]
fn count_of_readings_stops_at_the_largest() {
    let mut state = DriverState {
        prev_ms: 0,
        iterations: usize::MAX,
        current_maximum_allowed_depth: msw::new(0),
    };
    let mut l = surface_loading();
    let gases = [air()];
    let step =
        thalmann_step(&mut state, &mut l, &gases, 1, UpdateLaw::Exponential, &exp_neg, &neg_ln);
    assert_eq!(
        step,
        DriverStep::Done(ThalmannResult::FinishedResult {
            iterations: usize::MAX,
            reason: "surfaced"
        })
    );
}
