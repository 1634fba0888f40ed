use thalmann::compartment::{
    classify, crossover, crossover_request, crossover_time, decay_exponent, exponential_pressure,
    retention, thalmann_pressure, Crossing, EXPONENT_LIMIT,
};
use thalmann::gas::{air, GasMix, TissuesLoading};
use thalmann::mptt::{tissues, xval_he9_040};
use thalmann::pressure_unit::{msw, Pa, Pressure};
use thalmann::stop_time::{crossover_exponents, crossover_ratios, stop_time, Crossovers};
use thalmann::thalmann::{compute_stop_time, update_model_state};
use thalmann::update::{checkNoMpttExceeded, first_stop_depth, first_stop_row};
use thalmann::update_exp::{
    compute_stop_time_exp, exponential_update, retentions, update_model_state_exp,
};
use thalmann::update_thalmann::{
    compute_stop_time_thalmann, thalmann_update, update_model_state_thalmann,
};
use thalmann::{DecoError, UpdateLaw};

const ONE: i64 = 1_000_000_000_000;
const N2_SURFACE: i64 = 80_026_473_240;
const HE_SURFACE: i64 = 526_760;

fn exp_neg(x: i64) -> i64 {
    ((-(x as f64) / 1e12).exp() * 1e12).round() as i64
}

fn neg_ln(q: i64) -> i64 {
    (-((q as f64) / 1e12).ln() * 1e12).round() as i64
}

fn oxygen() -> GasMix {
    GasMix::new(ONE as u64, 0).unwrap()
}

fn surface_loading() -> TissuesLoading<5, Pa> {
    TissuesLoading::new(Pa::new(101_300_000_000), &air())
}

fn loaded(first_n2: i64) -> TissuesLoading<5, Pa> {
    let mut l = surface_loading();
    l.n2[0] = Pa::new(first_n2);
    l
}

fn values(a: &[Pa; 5]) -> [i64; 5] {
    a.map(|p| p.0)
}

#[test]
fn surface_loading_asks_for_no_stop() {
    let l = surface_loading();
    assert!(first_stop_depth(&l, &xval_he9_040()).is_none());
    assert!(first_stop_row(&l, &xval_he9_040()).is_none());
}

#[test]
fn first_stop_is_the_deepest_row_exceeded() {
    let table = xval_he9_040();
    // Exactly at the M-value of row 0: not exceeded.
    let l = loaded(361_766_004_167);
    assert!(first_stop_depth(&l, &table).is_none());
    // One step over row 0.
    let l = loaded(361_766_004_168);
    assert_eq!(first_stop_depth(&l, &table).map(|d| d.0), Some(3_000_000));
    assert_eq!(first_stop_row(&l, &table), Some(0));
    // Over rows 0 and 1, under row 2.
    let l = loaded(397_942_604_584);
    assert_eq!(first_stop_depth(&l, &table).map(|d| d.0), Some(6_000_000));
    // Over the whole table.
    let l = loaded(3_000_000_000_000);
    assert_eq!(first_stop_depth(&l, &table).map(|d| d.0), Some(96_000_000));
}

#[test]
fn first_stop_looks_at_helium_and_at_every_tissue() {
    let table = xval_he9_040();
    let mut l = surface_loading();
    l.he[4] = Pa::new(218_583_245_219);
    assert_eq!(first_stop_depth(&l, &table).map(|d| d.0), Some(3_000_000));
    l.he[4] = Pa::new(218_583_245_218);
    assert!(first_stop_depth(&l, &table).is_none());
    l.n2[3] = Pa::new(290_000_000_000);
    assert_eq!(first_stop_depth(&l, &table).map(|d| d.0), Some(6_000_000));
}

#[test]
fn table_check_by_depth_number() {
    let p = vec![10, 20, 30];
    let m = vec![vec![10, 5], vec![25, 19], vec![30, 31]];
    assert!(checkNoMpttExceeded(3, 0, &p, &m));
    assert!(!checkNoMpttExceeded(3, 1, &p, &m));
    assert!(checkNoMpttExceeded(0, 0, &vec![], &vec![]));
}

#[test]
fn decay_exponent_is_rate_times_time() {
    let model = tissues();
    assert_eq!(decay_exponent(&model[0], 600_000), 693_147_180_560);
    assert_eq!(decay_exponent(&model[0], 1), 1_155_245);
    assert_eq!(decay_exponent(&model[4], 1), 57_762);
    assert_eq!(decay_exponent(&model[0], 0), 0);
    assert_eq!(decay_exponent(&model[0], u64::MAX), EXPONENT_LIMIT);
}

#[test]
fn retention_holds_the_outside_value_to_the_unit_range() {
    assert_eq!(retention(&exp_neg, 693_147_180_560), 500_000_000_000);
    assert_eq!(retention(&|_x: i64| 2 * ONE, 5), ONE);
    assert_eq!(retention(&|_x: i64| -7, 5), 0);
    assert_eq!(retention(&|x: i64| x, 5), 5);
    // No decay leaves everything, whatever the function says.
    assert_eq!(retention(&|_x: i64| 0, 0), ONE);
}

#[test]
fn crossover_holds_the_outside_value_to_the_exponent_range() {
    assert_eq!(crossover(&neg_ln, 500_000_000_000), 693_147_180_560);
    assert_eq!(crossover(&|_q: i64| -1, 5), 0);
    assert_eq!(crossover(&|_q: i64| i64::MAX, 5), EXPONENT_LIMIT);
    assert_eq!(crossover(&|q: i64| q + 1, 5), 6);
    // A ratio of one has the logarithm zero, whatever the function says.
    assert_eq!(crossover(&|_q: i64| 99, ONE), 0);
}

#[test]
fn exponential_step_keeps_the_retained_part_of_the_difference() {
    let p0 = Pa::new(100_000_000_000);
    let target = Pa::new(300_000_000_000);
    assert_eq!(exponential_pressure(p0, target, ONE / 2).0, 200_000_000_000);
    assert_eq!(exponential_pressure(target, p0, ONE / 4).0, 150_000_000_000);
    assert_eq!(exponential_pressure(p0, target, ONE).0, 100_000_000_000);
    assert_eq!(exponential_pressure(p0, target, 0).0, 300_000_000_000);
    assert_eq!(exponential_pressure(p0, target, -5).0, 300_000_000_000);
    assert_eq!(exponential_pressure(p0, target, 3 * ONE).0, 100_000_000_000);
    assert_eq!(exponential_pressure(Pa::new(i64::MIN), Pa::new(i64::MAX), 0).0, i64::MAX);
    assert_eq!(exponential_pressure(Pa::new(i64::MAX), Pa::new(i64::MIN), 0).0, i64::MIN);
}

#[test]
fn exponential_step_has_a_fixed_point() {
    for rho in [0, 1, ONE / 3, ONE, -1, i64::MAX] {
        for p in [0, 1, -1, 123_456_789_012, i64::MAX, i64::MIN] {
            assert_eq!(exponential_pressure(Pa::new(p), Pa::new(p), rho).0, p);
        }
    }
}

#[test]
fn exponential_step_never_moves_away() {
    for rho in [0, 1, ONE / 3, ONE - 1, ONE] {
        for (p0, target) in [(5, 6), (0, 1_000_000_000), (-500, 500), (1, 1_000_000_000_000_000)] {
            let up = exponential_pressure(Pa::new(p0), Pa::new(target), rho).0;
            assert!(p0 <= up && up <= target);
            let down = exponential_pressure(Pa::new(target), Pa::new(p0), rho).0;
            assert!(p0 <= down && down <= target);
        }
    }
}

#[test]
fn crossing_goes_by_the_crossover_ratio() {
    let c = |p0: i64, pi: i64, m: i64| classify(Pa::new(p0), Pa::new(pi), Pa::new(m));
    // Giving off gas, M-value between: the trajectory meets it ahead.
    assert_eq!(c(400, 100, 250), Crossing::Ahead);
    // Giving off gas, already under the M-value: met in the past.
    assert_eq!(c(400, 100, 400), Crossing::Past);
    assert_eq!(c(400, 100, 900), Crossing::Past);
    // Giving off gas, M-value at or under the inspired pressure: never.
    assert_eq!(c(400, 100, 100), Crossing::Never);
    assert_eq!(c(400, 100, 50), Crossing::Never);
    // Taking up gas.
    assert_eq!(c(100, 400, 250), Crossing::Ahead);
    assert_eq!(c(100, 400, 100), Crossing::Past);
    assert_eq!(c(100, 400, 50), Crossing::Past);
    assert_eq!(c(100, 400, 400), Crossing::Never);
    assert_eq!(c(100, 400, 900), Crossing::Never);
    // At rest.
    assert_eq!(c(100, 100, 250), Crossing::Never);
    assert_eq!(c(100, 100, 100), Crossing::Never);
}

#[test]
fn crossover_request_is_the_ratio_where_a_crossing_lies_ahead() {
    let q = |p0: i64, pi: i64, m: i64| crossover_request(Pa::new(p0), Pa::new(pi), Pa::new(m));
    assert_eq!(q(400, 100, 250), ONE / 2);
    assert_eq!(q(100, 400, 250), ONE / 2);
    assert_eq!(q(397_942_604_584, 0, 391_927_967_450), 984_885_666_765);
    assert_eq!(q(400, 100, 400), 0);
    assert_eq!(q(400, 100, 50), 0);
    assert_eq!(q(100, 100, 100), 0);
    // A ratio too small to write is held to one step.
    assert_eq!(q(i64::MAX, 0, 1), 1);
}

#[test]
fn linear_exponential_step_takes_each_branch() {
    let t = |p0: i64, pi: i64, m: i64, x: i64, rho: i64, l: i64| {
        thalmann_pressure(Pa::new(p0), Pa::new(pi), Pa::new(m), x, rho, l).0
    };
    // No crossing: the exponential step.
    assert_eq!(t(100, 300, 400, ONE, ONE / 2, 0), 200);
    // Crossing in the past: the straight line from the start.
    assert_eq!(t(200, 300, 100, ONE / 10, ONE / 2, 0), 220);
    // Crossing ahead and within the step: exponential, then the line.
    assert_eq!(t(400, 100, 250, ONE, ONE / 4, ONE / 2), 175);
    // Crossing ahead and beyond the step: the exponential step.
    assert_eq!(t(400, 100, 250, ONE / 4, ONE / 2, ONE / 2), 250);
    assert_eq!(t(400, 100, 250, ONE / 4, ONE / 2, ONE), 250);
    // Crossing ahead with a crossover exponent of zero: the line.
    assert_eq!(t(400, 100, 250, ONE, ONE / 4, 0), 250);
}

#[test]
fn linear_exponential_step_is_continuous_at_the_crossover() {
    let t = |x: i64, l: i64| {
        thalmann_pressure(Pa::new(400_000), Pa::new(100_000), Pa::new(250_000), x, ONE / 2, l).0
    };
    // At the crossover the exponential has decayed to the ratio one half
    // and stands at the M-value.
    assert_eq!(t(ONE, ONE), 250_000);
    // One step of the exponent later the line has hardly left it.
    assert_eq!(t(ONE, ONE - 1), 250_000);
    assert_eq!(t(ONE, ONE - 10_000_000), 249_998);
}

#[test]
fn linear_exponential_step_has_a_fixed_point_and_never_moves_away() {
    for m in [0, 50, 100, 250, 400, 900] {
        for x in [0, 1, ONE / 2, ONE, 5 * ONE] {
            for l in [0, ONE / 2, ONE, 7 * ONE] {
                let t = |p0: i64, pi: i64| {
                    thalmann_pressure(Pa::new(p0), Pa::new(pi), Pa::new(m), x, ONE / 3, l).0
                };
                assert_eq!(t(100, 100), 100);
                assert!(t(100, 400) >= 100);
                assert!(t(400, 100) <= 400);
            }
        }
    }
}

#[test]
fn linear_exponential_step_holds_exponents_to_their_range() {
    let t = |x: i64, l: i64| {
        thalmann_pressure(Pa::new(400), Pa::new(100), Pa::new(250), x, ONE / 4, l).0
    };
    // A negative crossover exponent counts as zero: the straight line.
    assert_eq!(t(ONE, -5), 250);
    // A negative decay exponent counts as zero: the crossover lies beyond
    // the step, which is the exponential step with the retention given.
    assert_eq!(t(-1, ONE / 2), 175);
    assert_eq!(t(-1, -1), 175);
    // Exponents over the limit count as the limit.
    assert_eq!(t(i64::MAX, EXPONENT_LIMIT), 400 - 225);
    assert_eq!(t(i64::MAX, i64::MAX), 400 - 225);
}

#[test]
fn crossover_time_is_exponent_over_rate_rounded_up() {
    let model = tissues();
    assert_eq!(crossover_time(&model[0], 693_147_180_560), 600_000);
    assert_eq!(crossover_time(&model[0], 693_147_180_561), 600_001);
    assert_eq!(crossover_time(&model[0], 1), 1);
    assert_eq!(crossover_time(&model[0], 0), 0);
    let slow = thalmann::mptt::Tissue::new(693_147_180_560, 1).unwrap();
    assert_eq!(slow.rate(), 1);
    assert_eq!(crossover_time(&slow, EXPONENT_LIMIT), u64::MAX);
    assert_eq!(crossover_time(&slow, i64::MAX), u64::MAX);
    assert_eq!(crossover_time(&model[0], -1), 0);
}

#[test]
fn exponential_update_with_given_retentions() {
    let mut l = surface_loading();
    let depth = msw::new(12_000_000).to_pa();
    exponential_update(&mut l, &air(), depth, &[ONE / 2, 0, ONE, 900_000_000_000, ONE / 2]);
    assert_eq!(
        values(&l.n2),
        [560_185_312_680, 1_040_344_152_120, N2_SURFACE, 176_058_241_128, 560_185_312_680]
    );
    assert_eq!(values(&l.he), [3_687_320, 6_847_880, HE_SURFACE, 1_158_872, 3_687_320]);
}

#[test]
fn exponential_update_over_ten_minutes() {
    let model = tissues();
    assert_eq!(
        retentions(&model, 600_000, &exp_neg),
        [
            500_000_000_000,
            500_000_000_000,
            792_784_136_608,
            943_874_312_679,
            965_936_328_923
        ]
    );
    let mut l = surface_loading();
    update_model_state_exp(&mut l, &model, &air(), msw::new(12_000_000), 600_000, &exp_neg);
    assert_eq!(
        values(&l.n2),
        [560_185_312_680, 560_185_312_680, 279_019_530_200, 133_924_963_014, 112_738_418_783]
    );
    assert_eq!(values(&l.he), [3_687_320, 3_687_320, 1_836_596, 881_537, 742_081]);
}

#[test]
fn exponential_update_leaves_tissues_at_rest_alone() {
    let model = tissues();
    let mut l = surface_loading();
    update_model_state_exp(&mut l, &model, &air(), msw::new(0), 3_600_000, &exp_neg);
    assert_eq!(values(&l.n2), [N2_SURFACE; 5]);
    assert_eq!(values(&l.he), [HE_SURFACE; 5]);
}

#[test]
fn exponential_update_over_no_time_changes_nothing() {
    let model = tissues();
    let mut l = surface_loading();
    update_model_state_exp(&mut l, &model, &air(), msw::new(30_000_000), 0, &|_x: i64| 0);
    assert_eq!(values(&l.n2), [N2_SURFACE; 5]);
    assert_eq!(values(&l.he), [HE_SURFACE; 5]);
}

#[test]
fn exponential_update_takes_up_gas_at_depth_and_gives_it_off_above() {
    let model = tissues();
    let mut l = surface_loading();
    update_model_state_exp(&mut l, &model, &air(), msw::new(12_000_000), 60_000, &exp_neg);
    let deep = l;
    for i in 0..5 {
        assert!(deep.n2[i].0 > N2_SURFACE && deep.n2[i].0 < 1_040_344_152_120);
        assert!(deep.he[i].0 > HE_SURFACE && deep.he[i].0 < 6_847_880);
    }
    update_model_state_exp(&mut l, &model, &air(), msw::new(0), 60_000, &exp_neg);
    for i in 0..5 {
        assert!(l.n2[i].0 < deep.n2[i].0 && l.n2[i].0 > N2_SURFACE);
        assert!(l.he[i].0 < deep.he[i].0 && l.he[i].0 > HE_SURFACE);
    }
}

#[test]
fn short_exponential_step_has_the_slope_of_the_rate_constant() {
    // Over a hundredth of the half-time the change per millisecond is
    // within one percent of rate constant times difference.
    let model = tissues();
    let p_inspired: f64 = 1_040_344_152_120.0;
    for (i, half_time_ms) in [(0usize, 600_000u64), (1, 1_200_000), (3, 7_200_000), (4, 12_000_000)] {
        let dt = half_time_ms / 100;
        let mut l = surface_loading();
        update_model_state_exp(&mut l, &model, &air(), msw::new(12_000_000), dt, &exp_neg);
        let slope = (l.n2[i].0 - N2_SURFACE) as f64 / dt as f64;
        let k_per_ms = model[i].rate() as f64 / 1e12 / 60_000.0;
        let expected = k_per_ms * (p_inspired - N2_SURFACE as f64);
        assert!((slope / expected - 1.0).abs() < 0.01);
    }
}

#[test]
fn linear_exponential_update_with_given_values() {
    let model = tissues();
    let table = xval_he9_040();
    let mut l = loaded(397_942_604_584);
    let depth = msw::new(6_000_000).to_pa();
    let kept = retentions(&model, 13_184, &exp_neg);
    let ratios = crossover_ratios(&l, &oxygen(), &table[2], depth);
    // Every tissue is under the M-values of the row at 9 m and above the
    // inspired pressure of zero: all crossings lie in the past.
    assert_eq!(ratios.n2, [0; 5]);
    assert_eq!(ratios.he, [0; 5]);
    let exponents = crossover_exponents(&ratios, &neg_ln);
    assert_eq!(exponents.n2, [0; 5]);
    thalmann_update(&mut l, &model, &table[2], &oxygen(), depth, 13_184, &kept, &exponents);
    assert_eq!(
        values(&l.n2),
        [391_513_903_335, 74_577_877_480, 77_904_128_354, 79_582_473_564, 79_805_431_316]
    );
}

#[test]
fn linear_exponential_update_reads_the_row_of_the_depth_number() {
    let model = tissues();
    let table = xval_he9_040();
    let mut l = loaded(397_942_604_584);
    let r = update_model_state_thalmann(
        &mut l,
        &model,
        &table,
        &oxygen(),
        msw::new(6_000_000),
        13_184,
        &exp_neg,
        &neg_ln,
    );
    assert_eq!(r, Ok(()));
    assert_eq!(
        values(&l.n2),
        [391_513_903_335, 74_577_877_480, 77_904_128_354, 79_582_473_564, 79_805_431_316]
    );
    assert_eq!(
        values(&l.he),
        [-6_428_174_489, -5_448_069_000, -2_121_818_126, -443_472_916, -220_515_164]
    );
}

#[test]
fn linear_exponential_update_refuses_a_depth_without_a_row() {
    let model = tissues();
    let table = xval_he9_040();
    for depth in [0, -3_000_000, 93_000_001, 97_000_000] {
        let mut l = surface_loading();
        let r = update_model_state_thalmann(
            &mut l,
            &model,
            &table,
            &air(),
            msw::new(depth),
            60_000,
            &exp_neg,
            &neg_ln,
        );
        assert_eq!(r, Err(DecoError::InputOutOfRange));
        assert_eq!(values(&l.n2), [N2_SURFACE; 5]);
        assert_eq!(values(&l.he), [HE_SURFACE; 5]);
    }
}

#[test]
fn linear_exponential_update_over_no_time_changes_nothing() {
    let model = tissues();
    let table = xval_he9_040();
    let mut l = loaded(397_942_604_584);
    let r = update_model_state_thalmann(
        &mut l,
        &model,
        &table,
        &oxygen(),
        msw::new(6_000_000),
        0,
        &exp_neg,
        &neg_ln,
    );
    assert_eq!(r, Ok(()));
    assert_eq!(values(&l.n2), [397_942_604_584, N2_SURFACE, N2_SURFACE, N2_SURFACE, N2_SURFACE]);
    assert_eq!(values(&l.he), [HE_SURFACE; 5]);
}

#[test]
fn both_laws_behind_one_operation() {
    let model = tissues();
    let table = xval_he9_040();
    let mut by_law = surface_loading();
    let mut direct = surface_loading();
    let r = update_model_state(
        UpdateLaw::Exponential,
        &mut by_law,
        &model,
        &table,
        &air(),
        msw::new(12_000_000),
        600_000,
        &exp_neg,
        &neg_ln,
    );
    assert_eq!(r, Ok(()));
    update_model_state_exp(&mut direct, &model, &air(), msw::new(12_000_000), 600_000, &exp_neg);
    assert_eq!(values(&by_law.n2), values(&direct.n2));
    // The exponential law has no use for the table and refuses no depth.
    let r = update_model_state(
        UpdateLaw::Exponential,
        &mut by_law,
        &model,
        &table,
        &air(),
        msw::new(200_000_000),
        1,
        &exp_neg,
        &neg_ln,
    );
    assert_eq!(r, Ok(()));
    let r = update_model_state(
        UpdateLaw::LinearExponential,
        &mut by_law,
        &model,
        &table,
        &air(),
        msw::new(200_000_000),
        1,
        &exp_neg,
        &neg_ln,
    );
    assert_eq!(r, Err(DecoError::InputOutOfRange));
}

#[test]
fn stop_time_at_the_m_value_is_zero() {
    let model = tissues();
    let table = xval_he9_040();
    let l: TissuesLoading<5, Pa> = TissuesLoading { n2: table[1].max_saturation, he: [Pa::new(0); 5] };
    for law in [UpdateLaw::Exponential, UpdateLaw::LinearExponential] {
        let t = compute_stop_time(law, &l, &model, &oxygen(), &table, msw::new(6_000_000), &neg_ln);
        assert_eq!(t, Ok(0));
    }
}

#[test]
fn stop_time_ten_percent_over_the_m_value_is_positive_and_finite() {
    let model = tissues();
    let table = xval_he9_040();
    let over = table[1].max_saturation.map(|m| Pa::new(m.0 * 11 / 10));
    let l: TissuesLoading<5, Pa> = TissuesLoading { n2: over, he: [Pa::new(0); 5] };
    let exp = compute_stop_time_exp(&l, &model, &oxygen(), &table, msw::new(6_000_000), &neg_ln);
    let thal =
        compute_stop_time_thalmann(&l, &model, &oxygen(), &table, msw::new(6_000_000), &neg_ln);
    assert_eq!(exp, Ok(1_650_043));
    assert_eq!(thal, Ok(1_650_043));
}

#[test]
fn stop_time_is_the_time_to_halve_for_a_ratio_of_one_half() {
    let model = tissues();
    let mut table = xval_he9_040();
    table[0].max_saturation = [Pa::new(200_000_000_000); 5];
    let mut l: TissuesLoading<5, Pa> =
        TissuesLoading { n2: [Pa::new(0); 5], he: [Pa::new(0); 5] };
    l.n2[0] = Pa::new(400_000_000_000);
    let t = compute_stop_time_exp(&l, &model, &oxygen(), &table, msw::new(3_000_000), &neg_ln);
    // One half-time of the first tissue: ten minutes.
    assert_eq!(t, Ok(600_000));
    l.he[4] = Pa::new(400_000_000_000);
    let t = compute_stop_time_exp(&l, &model, &oxygen(), &table, msw::new(3_000_000), &neg_ln);
    // One half-time of the last tissue: two hundred minutes.
    assert_eq!(t, Ok(12_000_000));
}

#[test]
fn stop_time_with_given_exponents() {
    let model = tissues();
    let table = xval_he9_040();
    let l = loaded(397_942_604_584);
    let depth = msw::new(6_000_000).to_pa();
    let ratios = crossover_ratios(&l, &oxygen(), &table[1], depth);
    assert_eq!(ratios.n2, [984_885_666_765, 0, 0, 0, 0]);
    assert_eq!(ratios.he, [0; 5]);
    let exponents = Crossovers { n2: [15_229_718_897, 0, 0, 0, 0], he: [0; 5] };
    assert_eq!(stop_time(&l, &model, &oxygen(), &table[1], depth, &exponents), Ok(13_184));
    // Exponents out of range are held to it; those of tissues that need no
    // time are not looked at.
    let wild = Crossovers { n2: [-1, 5, 5, 5, 5], he: [i64::MAX; 5] };
    assert_eq!(stop_time(&l, &model, &oxygen(), &table[1], depth, &wild), Ok(0));
}

#[test]
fn stop_time_is_refused_where_no_time_helps() {
    let model = tissues();
    let table = xval_he9_040();
    // On air at 6 m the nitrogen is breathed at 5.6 bar, above every
    // M-value of the row: a tissue over its M-value and over that pressure
    // comes down, but never to the M-value.
    let l = loaded(600_000_000_000);
    let t = compute_stop_time_exp(&l, &model, &air(), &table, msw::new(6_000_000), &neg_ln);
    assert_eq!(t, Err(DecoError::InputOutOfRange));
}

#[test]
fn stop_time_is_refused_at_a_depth_without_a_row() {
    let model = tissues();
    let table = xval_he9_040();
    let l = surface_loading();
    for depth in [0, -1, 96_000_001] {
        let t = compute_stop_time_exp(&l, &model, &air(), &table, msw::new(depth), &neg_ln);
        assert_eq!(t, Err(DecoError::InputOutOfRange));
    }
    let t = compute_stop_time_exp(&l, &model, &air(), &table, msw::new(96_000_000), &neg_ln);
    assert_eq!(t, Ok(0));
}

#[test]
fn stop_time_of_a_tissue_that_takes_up_gas_is_zero() {
    let model = tissues();
    let table = xval_he9_040();
    // Over the M-value but under the inspired pressure: the crossing lies
    // in the past and the straight line gives no positive time.
    let l = loaded(431_120_764_195);
    let t = compute_stop_time_thalmann(&l, &model, &air(), &table, msw::new(6_000_000), &neg_ln);
    assert_eq!(t, Ok(0));
}
