use thalmann::depth_utils::{get_ascent_time, get_depth, get_depth_idx, get_row_idx, get_stop_row};
use thalmann::pressure_unit::{msw, Bar, Pa, Pressure};
use thalmann::{DecoError, DINC, LAST_STOP};

#[test]
fn depth_index_rounds_up() {
    assert_eq!(get_depth_idx(msw::new(3_000_000)), Ok(1));
    assert_eq!(get_depth_idx(msw::new(4_000_000)), Ok(2));
    assert_eq!(get_depth_idx(msw::new(9_000_000)), Ok(3));
    assert_eq!(get_depth_idx(msw::new(1)), Ok(1));
    assert_eq!(get_depth_idx(msw::new(3_000_001)), Ok(2));
    assert_eq!(get_depth_idx(msw::new(96_000_000)), Ok(32));
}

#[test]
fn depth_index_takes_any_unit() {
    assert_eq!(get_depth_idx(Pa::new(405_200_000_000)), Ok(1));
    assert_eq!(get_depth_idx(msw::new(6_000_000).to_bar()), Ok(2));
}

#[test]
fn depth_index_refuses_the_surface_and_above() {
    assert_eq!(get_depth_idx(msw::new(0)), Err(DecoError::InputOutOfRange));
    assert_eq!(get_depth_idx(msw::new(-1)), Err(DecoError::InputOutOfRange));
    assert_eq!(get_depth_idx(Bar::new(1_000_000)), Err(DecoError::InputOutOfRange));
}

#[test]
fn row_index_stays_inside_the_table() {
    assert_eq!(get_row_idx(msw::new(3_000_000)), Ok(1));
    assert_eq!(get_row_idx(msw::new(93_000_000)), Ok(31));
    assert_eq!(get_row_idx(msw::new(93_000_001)), Err(DecoError::InputOutOfRange));
    assert_eq!(get_row_idx(msw::new(0)), Err(DecoError::InputOutOfRange));
}

#[test]
fn row_at_a_depth() {
    assert_eq!(get_stop_row(msw::new(3_000_000)), Ok(0));
    assert_eq!(get_stop_row(msw::new(1)), Ok(0));
    assert_eq!(get_stop_row(msw::new(3_000_001)), Ok(1));
    assert_eq!(get_stop_row(msw::new(96_000_000)), Ok(31));
    assert_eq!(get_stop_row(msw::new(96_000_001)), Err(DecoError::InputOutOfRange));
    assert_eq!(get_stop_row(msw::new(0)), Err(DecoError::InputOutOfRange));
    assert_eq!(get_stop_row(Pa::new(709_100_000_000)), Ok(1));
}

#[test]
fn ascent_time_is_depth_over_rate() {
    assert_eq!(get_ascent_time(msw::new(0), msw::new(10_000_000)), 0);
    assert_eq!(get_ascent_time(msw::new(30_000_000), msw::new(10_000_000)), 180_000);
}

#[test]
fn ascent_time_rounds_at_the_end() {
    assert_eq!(get_ascent_time(msw::new(1_000_000), msw::new(9_000_000)), 6_667);
    assert_eq!(get_ascent_time(msw::new(500_000), msw::new(18_000_000)), 1_667);
    assert_eq!(get_ascent_time(msw::new(-5_000_000), msw::new(9_000_000)), 0);
    assert_eq!(get_ascent_time(msw::new(i64::MAX), msw::new(1)), u64::MAX);
}

#[test]
fn depth_of_a_stop_number() {
    assert_eq!(get_depth(0).0, 101_300_000_000);
    assert_eq!(get_depth(1).0, 405_200_000_000);
    assert_eq!(get_depth(2).to_msw().0, 6_000_000);
    assert_eq!(get_depth(usize::MAX).0, i64::MAX);
}

#[test]
fn grid_constants() {
    assert_eq!(DINC, 3_000_000);
    assert_eq!(LAST_STOP, 6_000_000);
}
