use vstd::prelude::*;

pub mod a3144_hall_sensor_driver;
pub mod carriage;
pub mod clock;
pub mod gpio;
pub mod l239d_4pin_stepper_motor_driver;
pub mod l239d_driver;
pub mod l239d_motor_driver;
