//! A bipolar stepper on an L293D with two enable lines and four coil lines.
//! The L293D datasheet is at https://www.ti.com/lit/ds/symlink/l293.pdf; the
//! drive sequence and the step delay follow the Arduino Stepper library.
use vstd::prelude::*;
use std::time::Instant;
use crate::clock::{duration_as_nanos, duration_since, instant_now};
use crate::gpio::{open_gpio, DriverError, Level, OutputLine};
use super::{coil_levels, driven_coils, State};
use super::motion;
use super::motion::{delay_for, is_step_due, lemma_run, next_in_range, run, shift, step_delay_us, step_due};

verus! {

/// Why a move was not started.
#[derive(Debug, Clone, Copy, PartialEq, Eq, Structural)]
pub enum StepError {
    /// The step delay is zero: `set_speed` was not called, or was called
    /// with a speed too high for a whole microsecond between steps.
    SpeedNotSet,
}

/// Position and speed bookkeeping of the stepper, and the move in progress.
#[derive(Debug, Clone, Copy, PartialEq, Eq, Structural)]
pub struct StepperState {
    /// Signed count of the steps taken since start-up.
    pub steps_taken: i32,
    pub steps_per_rev: u16,
    /// Time between two steps, in microseconds.
    pub step_delay_us: u64,
    pub direction: State,
    /// Wheel circumference, in mm.
    pub wheel_circumference: u16,
    /// Steps still to take in the move in progress.
    pub remaining_steps: u32,
    /// When the last step was taken, in nanoseconds on the motor's clock
    /// (zero, the time the motor was built, before the first step).
    pub last_step_ns: u128,
}

/// Signed displacement of `k` steps taken in `direction`.
pub open spec fn displacement(direction: State, k: int) -> int {
    match direction {
        State::Forward => k,
        State::Backward => -k,
        _ => 0,
    }
}

impl StepperState {
    /// The state of a freshly built motor.
    pub open spec fn initial(steps_per_rev: u16, wheel_circumference: u16) -> StepperState {
        StepperState {
            steps_taken: 0,
            steps_per_rev,
            step_delay_us: 0,
            direction: State::Off,
            wheel_circumference,
            remaining_steps: 0,
            last_step_ns: 0,
        }
    }

    pub open spec fn with_speed(self, rpm: u16) -> StepperState {
        StepperState { step_delay_us: delay_for(self.steps_per_rev, rpm), ..self }
    }

    /// Direction of a move of `steps` steps.
    pub open spec fn direction_for(steps: i32) -> State {
        if steps > 0 {
            State::Forward
        } else if steps < 0 {
            State::Backward
        } else {
            State::Stopped
        }
    }

    /// The state once a move of `steps` steps has been started.
    pub open spec fn started(self, steps: i32) -> StepperState {
        StepperState {
            direction: Self::direction_for(steps),
            remaining_steps: (if steps < 0 { -steps } else { steps as int }) as u32,
            ..self
        }
    }

    /// The position and steps left after the next step of the move in
    /// progress (the time of the step aside).
    pub open spec fn advanced(self) -> StepperState {
        StepperState {
            steps_taken: (self.steps_taken + displacement(self.direction, 1)) as i32,
            remaining_steps: (self.remaining_steps - 1) as u32,
            ..self
        }
    }

    /// The state after the next step of the move in progress, taken at
    /// `now_ns`.
    pub open spec fn stepped_at(self, now_ns: u128) -> StepperState {
        StepperState { last_step_ns: now_ns, ..self.advanced() }
    }

    /// The position and steps left after `k` further steps of the move in
    /// progress.
    pub open spec fn advanced_by(self, k: nat) -> StepperState {
        let p = run(self.steps_taken, self.remaining_steps, displacement(self.direction, 1), k);
        StepperState { steps_taken: p.0, remaining_steps: p.1, ..self }
    }

    /// The next step, if one is pending, keeps the step counter in range.
    pub open spec fn next_step_in_range(self) -> bool {
        next_in_range(self.steps_taken, self.remaining_steps, displacement(self.direction, 1))
    }

    /// A step is pending and the step delay has passed since the last one.
    pub open spec fn step_due(self, now_ns: int) -> bool {
        step_due(self.remaining_steps, self.step_delay_us, self.last_step_ns, now_ns)
    }

    pub fn new(steps_per_rev: u16, wheel_circumference: u16) -> (r: StepperState)
        ensures
            r == StepperState::initial(steps_per_rev, wheel_circumference),
    {
        StepperState {
            steps_taken: 0,
            steps_per_rev,
            step_delay_us: 0,
            direction: State::Off,
            wheel_circumference,
            remaining_steps: 0,
            last_step_ns: 0,
        }
    }

    /// Converts a speed in RPM into the time between steps.
    pub fn set_speed(&mut self, rpm: u16)
        requires
            old(self).steps_per_rev > 0,
            rpm > 0,
        ensures
            *final(self) == old(self).with_speed(rpm),
    {
        self.step_delay_us = step_delay_us(self.steps_per_rev, rpm);
    }

    /// Starts a move of `steps` steps (backward when negative). Refused,
    /// with nothing changed, while the step delay is zero.
    pub fn start_step(&mut self, steps: i32) -> (r: Result<(), StepError>)
        requires
            old(self).step_delay_us != 0 ==> steps != i32::MIN,
        ensures
            old(self).step_delay_us == 0 ==> r == Err::<(), StepError>(StepError::SpeedNotSet) && *final(self) == *old(self),
            old(self).step_delay_us != 0 ==> r == Ok::<(), StepError>(()) && *final(self) == old(self).started(steps),
    {
        if self.step_delay_us == 0 {
            return Err(StepError::SpeedNotSet);
        }
        let remaining_steps: i32 = if steps < 0 { -steps } else { steps };
        if steps > 0 {
            self.direction = State::Forward;
        } else if steps < 0 {
            self.direction = State::Backward;
        } else {
            self.direction = State::Stopped;
        }
        self.remaining_steps = remaining_steps as u32;
        Ok(())
    }

    /// Takes the next step of the move in progress, at `now_ns`, if it is
    /// due then; tells whether it did.
    pub fn tick(&mut self, now_ns: u128) -> (r: bool)
        requires
            old(self).next_step_in_range(),
        ensures
            r == old(self).step_due(now_ns as int),
            r ==> *final(self) == old(self).stepped_at(now_ns),
            !r ==> *final(self) == *old(self),
    {
        if is_step_due(self.remaining_steps, self.step_delay_us, self.last_step_ns, now_ns) {
            self.last_step_ns = now_ns;
            match self.direction {
                State::Forward => self.steps_taken = self.steps_taken + 1,
                State::Backward => self.steps_taken = self.steps_taken - 1,
                _ => {},
            }
            self.remaining_steps = self.remaining_steps - 1;
            true
        } else {
            false
        }
    }
}

/// A speed leaves at least a whole microsecond between steps, so that
/// moves are paced, exactly when steps_per_rev * rpm is at most 60000000.
pub proof fn lemma_speed_accepts_moves(s: StepperState, rpm: u16)
    requires
        s.steps_per_rev > 0,
        rpm > 0,
    ensures
        s.with_speed(rpm).step_delay_us != 0 <==> (s.steps_per_rev as int) * (rpm as int) <= 60000000,
{
    motion::lemma_speed_accepts_moves(s.steps_per_rev, rpm);
}

/// Two steps are never closer than the step delay: a step is due only once
/// the delay has passed since the last one, and the step taken becomes the
/// last one.
pub proof fn lemma_steps_spaced(s: StepperState, now_ns: u128)
    requires
        s.step_due(now_ns as int),
        s.step_delay_us > 0,
    ensures
        now_ns >= s.last_step_ns + s.step_delay_us * 1000,
        s.stepped_at(now_ns).last_step_ns == now_ns,
{
    motion::lemma_steps_spaced(s.remaining_steps, s.step_delay_us, s.last_step_ns, now_ns as int);
}

/// The delay set for a speed is the time of one step at that speed,
/// rounded down to whole microseconds.
pub proof fn lemma_speed_sets_time_per_step(s: StepperState, rpm: u16)
    requires
        s.steps_per_rev > 0,
        rpm > 0,
    ensures
        (s.with_speed(rpm).step_delay_us as int) * (s.steps_per_rev as int) * (rpm as int) <= 60000000,
        60000000 < (s.with_speed(rpm).step_delay_us as int + 1) * (s.steps_per_rev as int) * (rpm as int),
        s.with_speed(rpm) == (StepperState { step_delay_us: s.with_speed(rpm).step_delay_us, ..s }),
{
    motion::lemma_delay_is_time_per_step(s.steps_per_rev, rpm);
}

/// A pending step is due exactly when the step delay has passed since the
/// last step, however long ago that was.
pub proof fn lemma_step_due_exactly(s: StepperState, now_ns: u128)
    ensures
        s.remaining_steps > 0 && now_ns >= s.last_step_ns + s.step_delay_us * 1000 ==> s.step_due(now_ns as int),
        s.step_due(now_ns as int) ==> s.remaining_steps > 0,
        s.step_due(now_ns as int) && s.step_delay_us > 0 ==> now_ns >= s.last_step_ns + s.step_delay_us * 1000,
{
    motion::lemma_step_due_exactly(s.remaining_steps, s.step_delay_us, s.last_step_ns, now_ns as int);
}

/// One step moves the counter by one toward the move's direction (not at
/// all when it has none), uses up one step, records its time and changes
/// nothing else; it is the first step of a run.
pub proof fn lemma_one_step(s: StepperState, now_ns: u128)
    requires
        s.remaining_steps > 0,
        s.next_step_in_range(),
    ensures
        s.stepped_at(now_ns) == (StepperState {
            steps_taken: (if s.direction == State::Forward {
                s.steps_taken + 1
            } else if s.direction == State::Backward {
                s.steps_taken - 1
            } else {
                s.steps_taken as int
            }) as i32,
            remaining_steps: (s.remaining_steps - 1) as u32,
            last_step_ns: now_ns,
            ..s
        }),
        s.advanced() == s.advanced_by(1),
{
    assert(run(s.steps_taken, s.remaining_steps, displacement(s.direction, 1), 1) == run(
        (s.steps_taken + displacement(s.direction, 1)) as i32,
        (s.remaining_steps - 1) as u32,
        displacement(s.direction, 1),
        0,
    ));
}

/// Taking `k` steps of a move moves the counter by `k` in the move's
/// direction and leaves `k` fewer steps to take; on the way no step leaves
/// the counter's range, provided the end point is in it.
pub proof fn lemma_steps_of_a_move(s: StepperState, k: nat)
    requires
        k <= s.remaining_steps,
        i32::MIN <= s.steps_taken + displacement(s.direction, k as int) <= i32::MAX,
    ensures
        s.advanced_by(k) == (StepperState {
            steps_taken: (s.steps_taken + displacement(s.direction, k as int)) as i32,
            remaining_steps: (s.remaining_steps - k) as u32,
            ..s
        }),
        forall|j: nat| j < k ==> (#[trigger] s.advanced_by(j)).next_step_in_range(),
{
    let unit = displacement(s.direction, 1);
    assert(displacement(s.direction, k as int) == shift(unit, k as int));
    lemma_run(s.steps_taken, s.remaining_steps, unit, k);
    assert forall|j: nat| j < k implies (#[trigger] s.advanced_by(j)).next_step_in_range() by {
        let p = run(s.steps_taken, s.remaining_steps, unit, j);
        assert(next_in_range(p.0, p.1, unit));
    }
}

/// A move of `steps` steps ends, after as many steps as its length, with
/// the motor exactly `steps` steps further on and nothing left to do, and
/// none of its steps leaves the range of the step counter.
pub proof fn lemma_completed_move(s: StepperState, steps: i32)
    requires
        steps != i32::MIN,
        i32::MIN <= s.steps_taken + steps <= i32::MAX,
    ensures
        ({
            let m = s.started(steps);
            let n = m.remaining_steps as nat;
            &&& m.advanced_by(n).steps_taken == s.steps_taken + steps
            &&& m.advanced_by(n).remaining_steps == 0
            &&& forall|j: nat| j < n ==> (#[trigger] m.advanced_by(j)).next_step_in_range()
        }),
{
    let m = s.started(steps);
    lemma_steps_of_a_move(m, m.remaining_steps as nat);
}

/// A completed move followed by the completed opposite move brings the
/// motor back to where it started.
pub proof fn lemma_move_and_return(s: StepperState, steps: i32)
    requires
        steps != i32::MIN,
        i32::MIN <= s.steps_taken + steps <= i32::MAX,
    ensures
        ({
            let there = s.started(steps).advanced_by(s.started(steps).remaining_steps as nat);
            let back = there.started((-steps) as i32).advanced_by(there.started((-steps) as i32).remaining_steps as nat);
            back.steps_taken == s.steps_taken && back.remaining_steps == 0
        }),
{
    lemma_completed_move(s, steps);
    let there = s.started(steps).advanced_by(s.started(steps).remaining_steps as nat);
    lemma_completed_move(there, (-steps) as i32);
}

/// A four-wire stepper on an L293D: two enable lines and four coil lines.
pub struct Motor {
    motor_en1: OutputLine,
    motor_en2: OutputLine,
    motor_1a: OutputLine,
    motor_2a: OutputLine,
    motor_3a: OutputLine,
    motor_4a: OutputLine,
    state: StepperState,
    clock_start: Instant,
}

impl Motor {
    /// Position, speed, the move in progress and the time of the last step.
    pub closed spec fn model(&self) -> StepperState {
        self.state
    }

    /// Levels commanded on the enable lines EN1 and EN2.
    pub closed spec fn enables(&self) -> (Option<Level>, Option<Level>) {
        (self.motor_en1.commanded(), self.motor_en2.commanded())
    }

    /// Levels commanded on the coil lines 1A, 2A, 3A and 4A.
    pub closed spec fn coils(&self) -> (Option<Level>, Option<Level>, Option<Level>, Option<Level>) {
        (self.motor_1a.commanded(), self.motor_2a.commanded(), self.motor_3a.commanded(), self.motor_4a.commanded())
    }

    /// BCM numbers of the lines EN1, EN2, 1A, 2A, 3A and 4A.
    pub closed spec fn pins(&self) -> (u8, u8, u8, u8, u8, u8) {
        (
            self.motor_en1.pin(),
            self.motor_en2.pin(),
            self.motor_1a.pin(),
            self.motor_2a.pin(),
            self.motor_3a.pin(),
            self.motor_4a.pin(),
        )
    }

    /// The instant the motor's clock counts from: when it was built.
    pub closed spec fn clock_start(&self) -> Instant {
        self.clock_start
    }

    /// Claims the six pins (BCM numbers) as outputs. Nothing is driven yet,
    /// the step delay is zero, the motor is `Off`, and its clock starts.
    #[allow(non_snake_case)]
    pub fn new(
        PIN_M_EN1: u8,
        PIN_M_EN2: u8,
        PIN_M_1A: u8,
        PIN_M_2A: u8,
        PIN_M_3A: u8,
        PIN_M_4A: u8,
        steps_per_rev: u16,
        wheel_circumference: u16,
    ) -> (r: Result<Motor, DriverError>)
        ensures
            r matches Ok(m) ==> {
                &&& m.model() == StepperState::initial(steps_per_rev, wheel_circumference)
                &&& m.enables() == (None::<Level>, None::<Level>)
                &&& m.coils() == (None::<Level>, None::<Level>, None::<Level>, None::<Level>)
                &&& m.pins() == (PIN_M_EN1, PIN_M_EN2, PIN_M_1A, PIN_M_2A, PIN_M_3A, PIN_M_4A)
            },
    {
        let gpio = match open_gpio() {
            Ok(g) => g,
            Err(e) => return Err(e),
        };
        let motor_en1 = match OutputLine::claim(&gpio, PIN_M_EN1) {
            Ok(l) => l,
            Err(e) => return Err(e),
        };
        let motor_en2 = match OutputLine::claim(&gpio, PIN_M_EN2) {
            Ok(l) => l,
            Err(e) => return Err(e),
        };
        let motor_1a = match OutputLine::claim(&gpio, PIN_M_1A) {
            Ok(l) => l,
            Err(e) => return Err(e),
        };
        let motor_2a = match OutputLine::claim(&gpio, PIN_M_2A) {
            Ok(l) => l,
            Err(e) => return Err(e),
        };
        let motor_3a = match OutputLine::claim(&gpio, PIN_M_3A) {
            Ok(l) => l,
            Err(e) => return Err(e),
        };
        let motor_4a = match OutputLine::claim(&gpio, PIN_M_4A) {
            Ok(l) => l,
            Err(e) => return Err(e),
        };
        Ok(Motor {
            motor_en1,
            motor_en2,
            motor_1a,
            motor_2a,
            motor_3a,
            motor_4a,
            state: StepperState::new(steps_per_rev, wheel_circumference),
            clock_start: instant_now(),
        })
    }

    /// Position, speed, the move in progress and the time of the last step.
    pub fn state(&self) -> (r: &StepperState)
        ensures
            *r == self.model(),
    {
        &self.state
    }

    /// Reads the motor's clock: nanoseconds since the motor was built. The
    /// reading depends on the time of the call.
    pub fn clock_ns(&self) -> u128 {
        let now = instant_now();
        let elapsed = duration_since(&now, &self.clock_start);
        duration_as_nanos(&elapsed)
    }

    /// Enables (`true`) or disables (`false`) the stepper.
    pub fn set_power(&mut self, new_state: bool)
        ensures
            final(self).enables() == (if new_state {
                (Some(Level::High), Some(Level::High))
            } else {
                (Some(Level::Low), Some(Level::Low))
            }),
            final(self).model() == old(self).model(),
            final(self).coils() == old(self).coils(),
            final(self).pins() == old(self).pins(),
            final(self).clock_start() == old(self).clock_start(),
    {
        if new_state {
            self.motor_en1.set_high();
            self.motor_en2.set_high();
        } else {
            self.motor_en1.set_low();
            self.motor_en2.set_low();
        }
    }

    /// Converts a speed in RPM into the time between steps.
    pub fn set_speed(&mut self, rpm: u16)
        requires
            old(self).model().steps_per_rev > 0,
            rpm > 0,
        ensures
            final(self).model() == old(self).model().with_speed(rpm),
            final(self).enables() == old(self).enables(),
            final(self).coils() == old(self).coils(),
            final(self).pins() == old(self).pins(),
            final(self).clock_start() == old(self).clock_start(),
    {
        self.state.set_speed(rpm);
    }

    /// Starts a move of `steps` steps (backward when negative); refused
    /// while the speed is not set. `poll_step` then takes the steps.
    pub fn start_step(&mut self, steps: i32) -> (r: Result<(), StepError>)
        requires
            old(self).model().step_delay_us != 0 ==> steps != i32::MIN,
        ensures
            old(self).model().step_delay_us == 0 ==> r == Err::<(), StepError>(StepError::SpeedNotSet) && final(self).model() == old(self).model(),
            old(self).model().step_delay_us != 0 ==> r == Ok::<(), StepError>(()) && final(self).model() == old(self).model().started(steps),
            final(self).enables() == old(self).enables(),
            final(self).coils() == old(self).coils(),
            final(self).pins() == old(self).pins(),
            final(self).clock_start() == old(self).clock_start(),
    {
        self.state.start_step(steps)
    }

    /// Takes the next step of the move in progress if it is due at `now_ns`
    /// on the motor's clock (see `clock_ns`), and drives the windings for
    /// the new position. Tells whether a step was taken.
    pub fn poll_step(&mut self, now_ns: u128) -> (r: bool)
        requires
            old(self).model().next_step_in_range(),
        ensures
            r == old(self).model().step_due(now_ns as int),
            r ==> final(self).model() == old(self).model().stepped_at(now_ns)
                && final(self).coils() == driven_coils(final(self).model().steps_taken as int),
            !r ==> final(self).model() == old(self).model() && final(self).coils() == old(self).coils(),
            final(self).enables() == old(self).enables(),
            final(self).pins() == old(self).pins(),
            final(self).clock_start() == old(self).clock_start(),
    {
        let stepped = self.state.tick(now_ns);
        if stepped {
            self.drive_motor();
        }
        stepped
    }

    /// Drives the windings for the current position.
    fn drive_motor(&mut self)
        ensures
            final(self).model() == old(self).model(),
            final(self).enables() == old(self).enables(),
            final(self).coils() == driven_coils(old(self).model().steps_taken as int),
            final(self).pins() == old(self).pins(),
            final(self).clock_start() == old(self).clock_start(),
    {
        let c = coil_levels(self.state.steps_taken);
        self.motor_2a.write(c.a2);
        self.motor_1a.write(c.a1);
        self.motor_3a.write(c.a3);
        self.motor_4a.write(c.a4);
    }
}

} // verus!
