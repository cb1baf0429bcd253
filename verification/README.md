# camera_carriage

Drivers for a camera carriage that a stepper motor moves between printers on a
Raspberry Pi, and the command handling around them, verified with Verus.

- `src/gpio.rs`, `src/clock.rs`: the calls into `rppal` and `std::time`, each
  behind a small trusted function; `OutputLine` and `InputLine` record what
  each call set up or drove on a pin.
- `src/l239d_driver.rs`: the full-step drive sequence of a bipolar stepper on
  an L293D, with its laws; `src/l239d_driver/motion.rs`: the step counting
  and pacing both stepper drivers share; `src/l239d_driver/four_pin_stepper_motor.rs`: the
  stepper driver in use (two enable lines), its step state machine and the
  laws of a move.
- `src/l239d_4pin_stepper_motor_driver.rs`: the earlier stepper driver (one
  enable line); `src/l239d_motor_driver.rs`: a DC motor on an L293D;
  `src/a3144_hall_sensor_driver.rs`: a Hall sensor that counts ticks.
- `src/carriage.rs`: operator input, commands and how the carriage answers
  them.
- `app/`: the program: threads, console I/O, the loops that wait for each
  step to be due, and the distances in mm (floating point).
