use camera_carriage::gpio::Level;
use camera_carriage::gpio::Level::{High, Low};
use camera_carriage::l239d_driver::four_pin_stepper_motor::{StepError, StepperState};
use camera_carriage::l239d_driver::{coil_levels, CoilLevels, State};

fn levels(a1: Level, a2: Level, a3: Level, a4: Level) -> CoilLevels {
    CoilLevels { a1, a2, a3, a4 }
}

#[test]
fn new_state_is_off_at_home_without_speed() {
    let s = StepperState::new(200, 150);
    assert_eq!(s.steps_taken, 0);
    assert_eq!(s.steps_per_rev, 200);
    assert_eq!(s.step_delay_us, 0);
    assert_eq!(s.direction, State::Off);
    assert_eq!(s.wheel_circumference, 150);
    assert_eq!(s.remaining_steps, 0);
    assert_eq!(s.last_step_ns, 0);
}

#[test]
fn set_speed_gives_microseconds_between_steps() {
    let mut s = StepperState::new(200, 150);
    s.set_speed(250);
    assert_eq!(s.step_delay_us, 1200);
    s.set_speed(1);
    assert_eq!(s.step_delay_us, 300000);
    s.set_speed(7);
    assert_eq!(s.step_delay_us, 42857);
}

#[test]
fn set_speed_too_fast_rounds_to_zero() {
    let mut s = StepperState::new(65535, 150);
    s.set_speed(916);
    assert_eq!(s.step_delay_us, 0);
    assert_eq!(s.start_step(4), Err(StepError::SpeedNotSet));
}

#[test]
fn highest_speed_with_a_whole_microsecond() {
    let mut s = StepperState::new(65535, 150);
    s.set_speed(915);
    assert_eq!(s.step_delay_us, 1);
    assert_eq!(s.start_step(1), Ok(()));
}

#[test]
fn start_step_without_speed_is_refused() {
    let mut s = StepperState::new(200, 150);
    let before = s;
    assert_eq!(s.start_step(5), Err(StepError::SpeedNotSet));
    assert_eq!(s, before);
    assert_eq!(s.start_step(i32::MIN), Err(StepError::SpeedNotSet));
    assert_eq!(s, before);
}

#[test]
fn start_step_sets_direction_and_count() {
    let mut s = StepperState::new(200, 150);
    s.set_speed(250);
    assert_eq!(s.start_step(3), Ok(()));
    assert_eq!(s.direction, State::Forward);
    assert_eq!(s.remaining_steps, 3);
    assert_eq!(s.start_step(-7), Ok(()));
    assert_eq!(s.direction, State::Backward);
    assert_eq!(s.remaining_steps, 7);
    assert_eq!(s.start_step(0), Ok(()));
    assert_eq!(s.direction, State::Stopped);
    assert_eq!(s.remaining_steps, 0);
}

#[test]
fn tick_waits_for_the_step_delay_since_the_last_step() {
    let mut s = StepperState::new(200, 150);
    s.set_speed(250);
    s.start_step(2).unwrap();
    let before = s;
    assert!(!s.tick(1_199_999));
    assert_eq!(s, before);
    assert!(s.tick(1_200_000));
    assert_eq!(s.steps_taken, 1);
    assert_eq!(s.remaining_steps, 1);
    assert_eq!(s.last_step_ns, 1_200_000);
    assert!(!s.tick(2_399_999));
    assert_eq!(s.steps_taken, 1);
    assert!(s.tick(5_000_000));
    assert_eq!(s.steps_taken, 2);
    assert_eq!(s.remaining_steps, 0);
    assert_eq!(s.last_step_ns, 5_000_000);
    assert!(!s.tick(u128::MAX));
    assert_eq!(s.steps_taken, 2);
}

#[test]
fn tick_before_the_last_step_is_not_due() {
    let mut s = StepperState::new(200, 150);
    s.set_speed(250);
    s.start_step(2).unwrap();
    assert!(s.tick(10_000_000));
    assert!(!s.tick(9_000_000));
    assert_eq!(s.steps_taken, 1);
}

#[test]
fn backward_move_counts_down() {
    let mut s = StepperState::new(200, 150);
    s.set_speed(250);
    s.start_step(-3).unwrap();
    let mut now: u128 = 0;
    while s.remaining_steps > 0 {
        now += 1_200_000;
        assert!(s.tick(now));
    }
    assert_eq!(s.steps_taken, -3);
    assert_eq!(s.direction, State::Backward);
}

#[test]
fn move_and_return_comes_back_home() {
    let mut s = StepperState::new(200, 150);
    s.set_speed(100);
    s.start_step(9).unwrap();
    let mut now: u128 = 0;
    let mut ticks = 0;
    loop {
        now += 3_000_000;
        if !s.tick(now) {
            break;
        }
        ticks += 1;
    }
    assert_eq!(ticks, 9);
    assert_eq!(s.steps_taken, 9);
    s.start_step(-9).unwrap();
    loop {
        now += 3_000_000;
        if !s.tick(now) {
            break;
        }
    }
    assert_eq!(s.steps_taken, 0);
    assert_eq!(s.remaining_steps, 0);
}

#[test]
fn coil_levels_follow_the_full_step_sequence() {
    assert_eq!(coil_levels(0), levels(Low, High, High, Low));
    assert_eq!(coil_levels(1), levels(High, Low, High, Low));
    assert_eq!(coil_levels(2), levels(High, Low, Low, High));
    assert_eq!(coil_levels(3), levels(Low, High, Low, High));
    assert_eq!(coil_levels(4), coil_levels(0));
    assert_eq!(coil_levels(1001), coil_levels(1));
    assert_eq!(coil_levels(i32::MAX), coil_levels(3));
}

#[test]
fn coil_levels_below_zero_continue_the_sequence() {
    assert_eq!(coil_levels(-1), coil_levels(3));
    assert_eq!(coil_levels(-2), coil_levels(2));
    assert_eq!(coil_levels(-3), coil_levels(1));
    assert_eq!(coil_levels(-4), coil_levels(0));
    assert_eq!(coil_levels(-5), coil_levels(3));
    assert_eq!(coil_levels(i32::MIN), coil_levels(0));
}

#[test]
fn adjacent_phases_reverse_one_winding() {
    for p in -8..8 {
        let c = coil_levels(p);
        let d = coil_levels(p + 1);
        assert!(c.a1 != c.a2 && c.a3 != c.a4);
        assert!((c.a1 != d.a1) != (c.a3 != d.a3));
    }
}
