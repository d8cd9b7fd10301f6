use eq_bridge::bands::band_center_hz;
use eq_bridge::bands::default_axis;
use eq_bridge::bands::BandState;
use eq_bridge::bands::BAND_COUNT;
use eq_bridge::bands::DEFAULT_MAX_DB;
use eq_bridge::bands::DEFAULT_MIN_DB;
use eq_bridge::mapper::DbAxis;

#[test]
fn there_are_eight_bands() {
    assert_eq!(BAND_COUNT, 8);
}

#[test]
fn default_axis_spans_twenty_four_decibels_each_way() {
    assert_eq!(DEFAULT_MIN_DB, -2400);
    assert_eq!(DEFAULT_MAX_DB, 2400);
    assert_eq!(default_axis(), DbAxis { min_db: -2400, max_db: 2400 });
}

#[test]
fn band_centers_are_fixed() {
    let expected = [60, 120, 250, 1000, 4000, 8000, 12000, 16000];
    for (index, hz) in expected.iter().enumerate() {
        assert_eq!(band_center_hz(index), Some(*hz));
    }
    assert_eq!(band_center_hz(8), None);
    assert_eq!(band_center_hz(usize::MAX), None);
}

#[test]
fn new_band_state_is_flat() {
    let state = BandState::new(default_axis());
    assert_eq!(state.gains(), vec![0; 8]);
    assert_eq!(state.axis(), default_axis());
}

#[test]
fn band_state_set_stores_one_gain() {
    let mut state = BandState::new(default_axis());
    assert!(state.set(3, -1250));
    assert_eq!(state.gains(), vec![0, 0, 0, -1250, 0, 0, 0, 0]);
    assert_eq!(state.get(3), Some(-1250));
    assert_eq!(state.get(4), Some(0));
}

#[test]
fn band_state_set_takes_the_ends_of_the_axis() {
    let mut state = BandState::new(default_axis());
    assert!(state.set(0, -2400));
    assert!(state.set(7, 2400));
    assert_eq!(state.gains(), vec![-2400, 0, 0, 0, 0, 0, 0, 2400]);
}

#[test]
fn band_state_set_ignores_an_index_that_names_no_band() {
    let mut state = BandState::new(default_axis());
    state.set(1, 100);
    assert!(!state.set(8, 500));
    assert!(!state.set(usize::MAX, 500));
    assert_eq!(state.gains(), vec![0, 100, 0, 0, 0, 0, 0, 0]);
}

#[test]
fn band_state_get_has_nothing_beyond_the_last_band() {
    let state = BandState::new(default_axis());
    assert_eq!(state.get(7), Some(0));
    assert_eq!(state.get(8), None);
}

#[test]
fn band_state_reset_returns_every_band_to_zero() {
    let mut state = BandState::new(default_axis());
    for index in 0..8 {
        state.set(index, 300 * (index as i32) - 1000);
    }
    assert_eq!(state.gains(), vec![-1000, -700, -400, -100, 200, 500, 800, 1100]);
    state.reset();
    assert_eq!(state.gains(), vec![0; 8]);
    assert_eq!(state.axis(), default_axis());
}

#[test]
fn marker_positions_follow_the_gains() {
    let mut state = BandState::new(default_axis());
    state.set(0, 2400);
    state.set(1, 600);
    state.set(2, -2400);
    state.set(7, 1);
    assert_eq!(
        state.marker_positions(),
        vec![0, 75_000, 200_000, 100_000, 100_000, 100_000, 100_000, 99_958]
    );
}

#[test]
fn marker_positions_use_the_axis_of_the_state() {
    let axis = DbAxis::new(-1000, 3000).unwrap();
    let state = BandState::new(axis);
    assert_eq!(state.marker_positions(), vec![150_000; 8]);
}
