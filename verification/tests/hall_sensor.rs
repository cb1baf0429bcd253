use camera_carriage::a3144_hall_sensor_driver::registers_tick;
use camera_carriage::gpio::Level;

#[test]
fn falling_edge_is_a_tick() {
    assert!(registers_tick(&Ok(Some(Level::Low))));
}

#[test]
fn other_poll_outcomes_are_not_ticks() {
    assert!(!registers_tick(&Ok(Some(Level::High))));
    assert!(!registers_tick(&Ok(None)));
    assert!(!registers_tick(&Err(rppal::gpio::Error::UnknownModel)));
    assert!(!registers_tick(&Err(rppal::gpio::Error::PinUsed(26))));
}
