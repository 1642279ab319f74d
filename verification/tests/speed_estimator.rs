use hall_commutation::speed::{
    signed_difference, stall_check, step_speed, Direction, SpeedEstimator, DEFAULT_SPEED_CEILING,
    DEFAULT_WINDOW_TICKS, MIN_SPEED,
};

#[test]
fn strong_progress_raises_speed_by_two() {
    assert_eq!(step_speed(10, 3, 50), 12);
    assert_eq!(step_speed(10, 4, 50), 12);
    assert_eq!(step_speed(1, 3, 50), 3);
}

#[test]
fn no_progress_drops_speed_by_thirty_down_to_one() {
    assert_eq!(step_speed(10, 0, 50), 1);
    assert_eq!(step_speed(45, 0, 50), 15);
    assert_eq!(step_speed(45, -2, 50), 15);
    assert_eq!(step_speed(31, 0, 50), 1);
    assert_eq!(step_speed(30, 0, 50), 1);
}

#[test]
fn graduated_deceleration_tiers() {
    assert_eq!(step_speed(45, 2, 50), 35);
    assert_eq!(step_speed(10, 2, 50), 1);
    assert_eq!(step_speed(11, 2, 50), 1);
    assert_eq!(step_speed(12, 2, 50), 2);
    assert_eq!(step_speed(45, 1, 50), 25);
    assert_eq!(step_speed(20, 1, 50), 1);
    assert_eq!(step_speed(21, 1, 50), 1);
    assert_eq!(step_speed(22, 1, 50), 2);
}

#[test]
fn speed_is_clamped_to_the_ceiling() {
    assert_eq!(step_speed(48, 3, 50), 50);
    assert_eq!(step_speed(49, 3, 50), 50);
    assert_eq!(step_speed(50, 3, 50), 50);
    assert_eq!(step_speed(47, 3, 50), 49);
    assert_eq!(step_speed(u32::MAX, 3, u32::MAX), u32::MAX);
    assert_eq!(step_speed(7, 3, 8), 8);
}

#[test]
fn step_never_goes_below_one() {
    for speed in [0u32, 1, 2, 9, 10, 29, 30, 50] {
        for delta in [-5i32, -1, 0, 1, 2, 3, 7] {
            let next = step_speed(speed, delta, 50);
            assert!(next >= MIN_SPEED);
            assert!(next <= 50);
        }
    }
}

#[test]
fn stall_check_forces_speed_one() {
    assert_eq!(stall_check(40, 0), 1);
    assert_eq!(stall_check(40, 1), 1);
    assert_eq!(stall_check(40, -3), 1);
    assert_eq!(stall_check(40, 2), 40);
    assert_eq!(stall_check(1, 6), 1);
}

#[test]
fn delta_sign_follows_direction() {
    assert_eq!(signed_difference(5, 2, Direction::Forward), 3);
    assert_eq!(signed_difference(5, 2, Direction::Reverse), -3);
    assert_eq!(signed_difference(-4, 2, Direction::Reverse), 6);
    assert_eq!(signed_difference(2, 2, Direction::Forward), 0);
}

#[test]
fn delta_survives_counter_wraparound() {
    assert_eq!(signed_difference(i32::MIN, i32::MAX, Direction::Forward), 1);
    assert_eq!(signed_difference(i32::MIN + 1, i32::MAX - 1, Direction::Forward), 3);
    assert_eq!(signed_difference(i32::MAX, i32::MIN, Direction::Forward), -1);
    assert_eq!(signed_difference(i32::MAX, i32::MIN, Direction::Reverse), 1);
}

#[test]
fn defaults() {
    assert_eq!(DEFAULT_SPEED_CEILING, 50);
    assert_eq!(DEFAULT_WINDOW_TICKS, 46080);
    let estimator = SpeedEstimator::with_defaults();
    assert_eq!(estimator.speed(), 1);
    assert_eq!(estimator.ceiling(), 50);
    assert_eq!(estimator.window_ticks(), 46080);
    assert_eq!(estimator.position_counter(), 0);
}

#[test]
fn zero_window_or_ceiling_is_refused() {
    assert!(SpeedEstimator::new(0, 50).is_none());
    assert!(SpeedEstimator::new(4, 0).is_none());
    assert!(SpeedEstimator::new(0, 0).is_none());
    assert!(SpeedEstimator::new(1, 1).is_some());
}

#[test]
fn speed_changes_only_at_window_boundaries() {
    let mut estimator = SpeedEstimator::new(4, 50).unwrap();
    assert_eq!(estimator.tick(1, Direction::Forward), 1);
    assert_eq!(estimator.tick(1, Direction::Forward), 1);
    assert_eq!(estimator.tick(1, Direction::Forward), 1);
    // Fourth tick ends the window with a delta of 4.
    assert_eq!(estimator.tick(1, Direction::Forward), 3);
    assert_eq!(estimator.position_counter(), 4);
}

/// An estimator with a window of one tick, brought to speed ten: up to the
/// ceiling of fifty, then down by ten four times.
fn estimator_at_speed_ten() -> SpeedEstimator {
    let mut estimator = SpeedEstimator::new(1, 50).unwrap();
    for _ in 0..25 {
        estimator.tick(3, Direction::Forward);
    }
    assert_eq!(estimator.speed(), 50);
    for expected in [40u32, 30, 20, 10] {
        assert_eq!(estimator.tick(2, Direction::Forward), expected);
    }
    estimator
}

#[test]
fn window_delta_of_three_from_speed_ten_gives_twelve() {
    let mut estimator = estimator_at_speed_ten();
    assert_eq!(estimator.tick(3, Direction::Forward), 12);
}

#[test]
fn window_delta_of_zero_from_speed_ten_gives_one() {
    let mut estimator = estimator_at_speed_ten();
    assert_eq!(estimator.tick(0, Direction::Forward), 1);
}

#[test]
fn window_without_progress_drops_to_one() {
    let mut estimator = SpeedEstimator::new(2, 50).unwrap();
    for _ in 0..10 {
        estimator.tick(2, Direction::Forward);
    }
    assert_eq!(estimator.speed(), 11);
    estimator.tick(0, Direction::Forward);
    assert_eq!(estimator.tick(0, Direction::Forward), 1);
}

#[test]
fn unchanged_position_over_two_windows_forces_speed_one() {
    let mut estimator = SpeedEstimator::new(3, 50).unwrap();
    // Sixteen windows of strong progress, ending on a stall check.
    for _ in 0..48 {
        estimator.tick(1, Direction::Forward);
    }
    assert_eq!(estimator.speed(), 33);
    let position = estimator.position_counter();
    for _ in 0..5 {
        estimator.tick(0, Direction::Forward);
    }
    // The first window without progress only steps down by thirty.
    assert_eq!(estimator.speed(), 3);
    // The second one ends with the stall check.
    assert_eq!(estimator.tick(0, Direction::Forward), 1);
    assert_eq!(estimator.position_counter(), position);
}

#[test]
fn stall_check_overrides_a_window_with_progress() {
    let mut estimator = SpeedEstimator::new(1, 50).unwrap();
    for _ in 0..22 {
        estimator.tick(3, Direction::Forward);
    }
    assert_eq!(estimator.speed(), 45);
    // An odd window going back by two steps the speed down by thirty.
    assert_eq!(estimator.tick(-2, Direction::Forward), 15);
    // The even window after it measures three, which alone would give 17, but
    // the two windows together moved by one only.
    assert_eq!(estimator.tick(3, Direction::Forward), 1);
}

#[test]
fn stall_check_runs_on_every_second_window_only() {
    let mut estimator = SpeedEstimator::new(1, 50).unwrap();
    // Twenty-two windows of strong progress, the last with a stall check.
    for _ in 0..22 {
        estimator.tick(3, Direction::Forward);
    }
    assert_eq!(estimator.speed(), 45);
    // An odd window with a delta of one: stepped down by twenty, not stalled.
    assert_eq!(estimator.tick(1, Direction::Forward), 25);
    // The even window after it: delta two steps down by ten, and the stall
    // check sees three transitions over both windows.
    assert_eq!(estimator.tick(2, Direction::Forward), 15);
    // An odd window going back, then an even one going forth again: the
    // window measures three, the two windows together only one.
    assert_eq!(estimator.tick(-2, Direction::Forward), 1);
    assert_eq!(estimator.tick(3, Direction::Forward), 1);
    // The same strong window without a stall check raises the speed.
    assert_eq!(estimator.tick(3, Direction::Forward), 3);
}

#[test]
fn reverse_direction_counts_decreasing_sectors_as_progress() {
    let mut estimator = SpeedEstimator::new(2, 50).unwrap();
    estimator.tick(-2, Direction::Reverse);
    assert_eq!(estimator.tick(-2, Direction::Reverse), 3);
    assert_eq!(estimator.position_counter(), -4);
    estimator.tick(2, Direction::Reverse);
    assert_eq!(estimator.tick(2, Direction::Reverse), 1);
}

#[test]
fn speed_stays_between_one_and_the_ceiling() {
    let mut estimator = SpeedEstimator::new(3, 7).unwrap();
    let transitions: [i8; 8] = [2, 2, -1, 0, 1, 2, -2, 2];
    for round in 0..400usize {
        let transition = transitions[(round * 5 + round / 7) % transitions.len()];
        let direction = if round % 90 < 60 { Direction::Forward } else { Direction::Reverse };
        let speed = estimator.tick(transition, direction);
        assert!(speed >= 1 && speed <= 7, "speed {} at round {}", speed, round);
        assert_eq!(speed, estimator.speed());
    }
}

#[test]
fn position_counter_accumulates_transitions() {
    let mut estimator = SpeedEstimator::new(100, 50).unwrap();
    for transition in [1i8, 1, 2, -1, 0, -2, 2] {
        estimator.tick(transition, Direction::Forward);
    }
    assert_eq!(estimator.position_counter(), 3);
}
