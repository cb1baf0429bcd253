use camera_carriage::l239d_4pin_stepper_motor_driver::{State, StepperState};

#[test]
fn legacy_new_state() {
    let s = StepperState::new(200);
    assert_eq!(s.steps_taken, 0);
    assert_eq!(s.step_delay_us, 0);
    assert_eq!(s.direction, State::Off);
    assert_eq!(s.remaining_steps, 0);
    assert_eq!(s.last_step_ns, 0);
}

#[test]
fn legacy_set_speed_in_microseconds() {
    let mut s = StepperState::new(200);
    s.setSpeed(250);
    assert_eq!(s.step_delay_us, 1200);
    s.setSpeed(65535);
    assert_eq!(s.step_delay_us, 4);
}

#[test]
fn legacy_zero_steps_keep_direction() {
    let mut s = StepperState::new(200);
    s.start_step(0);
    assert_eq!(s.direction, State::Off);
    s.start_step(-2);
    assert_eq!(s.direction, State::Backward);
    s.start_step(0);
    assert_eq!(s.direction, State::Backward);
    assert_eq!(s.remaining_steps, 0);
}

#[test]
fn legacy_steps_without_speed_run_at_once() {
    let mut s = StepperState::new(200);
    s.start_step(3);
    assert!(s.tick(0));
    assert!(s.tick(0));
    assert!(s.tick(0));
    assert!(!s.tick(0));
    assert_eq!(s.steps_taken, 3);
}

#[test]
fn legacy_move_and_return() {
    let mut s = StepperState::new(48);
    s.setSpeed(60);
    assert_eq!(s.step_delay_us, 20833);
    s.start_step(-5);
    let mut now: u128 = 0;
    loop {
        now += 20_833_000;
        if !s.tick(now) {
            break;
        }
    }
    assert_eq!(s.steps_taken, -5);
    s.start_step(5);
    assert!(!s.tick(s.last_step_ns + 20_832_999));
    loop {
        now += 20_833_000;
        if !s.tick(now) {
            break;
        }
    }
    assert_eq!(s.steps_taken, 0);
}
