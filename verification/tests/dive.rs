use thalmann::dive::{DiveMeasurement, Stop, StopSchedule};
use thalmann::gas::air;
use thalmann::pressure_unit::{msw, Pa};
use thalmann::DecoError;

fn schedule() -> StopSchedule<4> {
    let mut stops = StopSchedule::<4>::default().stops();
    stops[1] = Stop::new(msw::new(6_000_000), 13_184, None);
    stops[2] = Stop::new(msw::new(3_000_000), 69_319, Some(air()));
    StopSchedule::new(stops)
}

#[test]
fn stop_keeps_what_it_was_made_of() {
    let s = Stop::new(Pa::new(405_200_000_000), 90_000, Some(air()));
    assert_eq!(s.depth().0, 3_000_000);
    assert_eq!(s.duration(), 90_000);
    assert_eq!(s.gas().map(|g| g.fo2()), Some(210_000_000_000));
    let s = Stop::new(msw::new(9_000_000), 0, None);
    assert_eq!(s.depth().0, 9_000_000);
    assert!(s.gas().is_none());
}

#[test]
fn default_schedule_has_every_slot_at_its_depth_and_no_stop() {
    let s = StopSchedule::<5>::default();
    let depths: Vec<i64> = s.stops().iter().map(|stop| stop.depth().0).collect();
    assert_eq!(depths, vec![12_000_000, 9_000_000, 6_000_000, 3_000_000, 0]);
    assert!(s.stops().iter().all(|stop| stop.duration() == 0 && stop.gas().is_none()));
    assert!(s.first_stop().is_none());
    assert_eq!(StopSchedule::<0>::default().stops().len(), 0);
}

#[test]
fn first_stop_is_the_deepest_that_lasts() {
    let s = schedule();
    let first = s.first_stop().unwrap();
    assert_eq!(first.depth().0, 6_000_000);
    assert_eq!(first.duration(), 13_184);
}

#[test]
fn time_to_surface_is_all_stops_and_the_ascent_from_the_first() {
    let s = schedule();
    // 6 m at 9 m per minute are 40 s.
    assert_eq!(s.get_deco_tts(msw::new(9_000_000)), 13_184 + 69_319 + 40_000);
    assert_eq!(StopSchedule::<4>::default().get_deco_tts(msw::new(9_000_000)), 0);
}

#[test]
fn time_to_surface_saturates() {
    let mut stops = StopSchedule::<3>::default().stops();
    stops[0] = Stop::new(msw::new(6_000_000), u64::MAX - 5, None);
    stops[1] = Stop::new(msw::new(3_000_000), 10, None);
    assert_eq!(StopSchedule::new(stops).get_deco_tts(msw::new(9_000_000)), u64::MAX);
}

#[test]
fn time_to_first_stop() {
    let s = schedule();
    assert_eq!(s.get_tt_first_stop_ascent_now(msw::new(30_000_000), msw::new(9_000_000)), Ok(160_000));
    assert_eq!(s.get_tt_first_stop_ascent_now(msw::new(6_000_000), msw::new(9_000_000)), Ok(0));
    assert_eq!(
        s.get_tt_first_stop_ascent_now(Pa::new(3_140_300_000_000), msw::new(9_000_000)),
        Ok(160_000)
    );
}

#[test]
fn time_to_first_stop_is_refused_above_it() {
    let s = schedule();
    assert_eq!(
        s.get_tt_first_stop_ascent_now(msw::new(5_999_999), msw::new(9_000_000)),
        Err(DecoError::InputOutOfRange)
    );
}

#[test]
fn time_to_first_stop_without_a_stop_is_zero() {
    let s = StopSchedule::<4>::default();
    assert_eq!(s.get_tt_first_stop_ascent_now(msw::new(-50_000_000), msw::new(9_000_000)), Ok(0));
}

#[test]
fn measurement_holds_time_depth_and_gas() {
    let m = DiveMeasurement { time_ms: 5, depth: Pa::new(7), gas: 1 };
    assert_eq!((m.time_ms, m.depth.0, m.gas), (5, 7, 1));
}
