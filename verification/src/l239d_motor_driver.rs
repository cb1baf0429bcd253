//! A brushed DC motor on one half of an L293D: an enable line and the two
//! inputs 1A and 2A. The pin combinations are those of the function table
//! of the datasheet, https://www.ti.com/lit/ds/symlink/l293.pdf.
use vstd::prelude::*;
use crate::gpio::{open_gpio, DriverError, Level, OutputLine};

verus! {

/// What the motor is doing.
#[derive(Debug, Clone, Copy, PartialEq, Eq, Structural)]
pub enum State {
    Forward,
    Backward,
    Stopped,
    Off,
}

/// Levels on (EN, 1A, 2A) that put the motor in `state`: forward and
/// backward drive the two terminals apart, braking ties both to the supply,
/// and off disables the bridge.
pub open spec fn bridge_pattern(state: State) -> (Level, Level, Level) {
    match state {
        State::Forward => (Level::High, Level::High, Level::Low),
        State::Backward => (Level::High, Level::Low, Level::High),
        State::Stopped => (Level::High, Level::High, Level::High),
        State::Off => (Level::Low, Level::Low, Level::Low),
    }
}

/// The levels of `bridge_pattern`, as commanded on the lines.
pub open spec fn commanded_pattern(state: State) -> (Option<Level>, Option<Level>, Option<Level>) {
    let (en, a1, a2) = bridge_pattern(state);
    (Some(en), Some(a1), Some(a2))
}

/// The bridge drives current through the motor exactly when it is enabled
/// and its two inputs differ, which is so in the forward and backward
/// states only; backward is forward with the two inputs swapped.
pub proof fn lemma_bridge_drives_only_when_moving(state: State)
    ensures
        ({
            let (en, a1, a2) = bridge_pattern(state);
            (en == Level::High && a1 != a2) <==> (state == State::Forward || state == State::Backward)
        }),
        bridge_pattern(State::Backward) == (
            bridge_pattern(State::Forward).0,
            bridge_pattern(State::Forward).2,
            bridge_pattern(State::Forward).1,
        ),
        bridge_pattern(State::Off).0 == Level::Low,
{
}

/// The function table of the L293D for one motor: the bridge is enabled in
/// every state but off; 1A is high going forward and braking, 2A is high
/// going backward and braking.
pub proof fn lemma_bridge_function_table(state: State)
    ensures
        bridge_pattern(state).0 == (if state == State::Off { Level::Low } else { Level::High }),
        bridge_pattern(state).1 == (if state == State::Forward || state == State::Stopped { Level::High } else { Level::Low }),
        bridge_pattern(state).2 == (if state == State::Backward || state == State::Stopped { Level::High } else { Level::Low }),
{
}

/// A DC motor on an L293D.
pub struct Motor {
    motor_en: OutputLine,
    motor_1a: OutputLine,
    motor_2a: OutputLine,
    state: State,
}

impl Motor {
    /// What the motor was last told to do.
    pub closed spec fn current_state(&self) -> State {
        self.state
    }

    /// BCM numbers of the (EN, 1A, 2A) lines.
    pub closed spec fn pins(&self) -> (u8, u8, u8) {
        (self.motor_en.pin(), self.motor_1a.pin(), self.motor_2a.pin())
    }

    /// Levels commanded on (EN, 1A, 2A).
    pub closed spec fn lines(&self) -> (Option<Level>, Option<Level>, Option<Level>) {
        (self.motor_en.commanded(), self.motor_1a.commanded(), self.motor_2a.commanded())
    }

    /// Claims the three pins (BCM numbers) as outputs. Nothing is driven
    /// yet and the motor counts as `Stopped`.
    #[allow(non_snake_case)]
    pub fn new(PIN_MOTOR_EN: u8, PIN_MOTOR_1A: u8, PIN_MOTOR_2A: u8) -> (r: Result<Motor, DriverError>)
        ensures
            r matches Ok(m) ==> {
                &&& m.current_state() == State::Stopped
                &&& m.lines() == (None::<Level>, None::<Level>, None::<Level>)
                &&& m.pins() == (PIN_MOTOR_EN, PIN_MOTOR_1A, PIN_MOTOR_2A)
            },
    {
        let gpio = match open_gpio() {
            Ok(g) => g,
            Err(e) => return Err(e),
        };
        let motor_en = match OutputLine::claim(&gpio, PIN_MOTOR_EN) {
            Ok(l) => l,
            Err(e) => return Err(e),
        };
        let motor_1a = match OutputLine::claim(&gpio, PIN_MOTOR_1A) {
            Ok(l) => l,
            Err(e) => return Err(e),
        };
        let motor_2a = match OutputLine::claim(&gpio, PIN_MOTOR_2A) {
            Ok(l) => l,
            Err(e) => return Err(e),
        };
        Ok(Motor { motor_en, motor_1a, motor_2a, state: State::Stopped })
    }

    /// What the motor was last told to do.
    pub fn state(&self) -> (r: State)
        ensures
            r == self.current_state(),
    {
        self.state
    }

    /// Turns the motor forward.
    pub fn forward(&mut self)
        ensures
            final(self).current_state() == State::Forward,
            final(self).lines() == commanded_pattern(State::Forward),
            final(self).pins() == old(self).pins(),
    {
        self.motor_en.set_high();
        self.motor_1a.set_high();
        self.motor_2a.set_low();
        self.state = State::Forward;
    }

    /// Turns the motor backward.
    pub fn backward(&mut self)
        ensures
            final(self).current_state() == State::Backward,
            final(self).lines() == commanded_pattern(State::Backward),
            final(self).pins() == old(self).pins(),
    {
        self.motor_en.set_high();
        self.motor_1a.set_low();
        self.motor_2a.set_high();
        self.state = State::Backward;
    }

    /// Stops the motor quickly by tying both terminals high.
    pub fn brake(&mut self)
        ensures
            final(self).current_state() == State::Stopped,
            final(self).lines() == commanded_pattern(State::Stopped),
            final(self).pins() == old(self).pins(),
    {
        self.motor_en.set_high();
        self.motor_1a.set_high();
        self.motor_2a.set_high();
        self.state = State::Stopped;
    }

    /// Disables the bridge and drives both inputs low.
    pub fn off(&mut self)
        ensures
            final(self).current_state() == State::Off,
            final(self).lines() == commanded_pattern(State::Off),
            final(self).pins() == old(self).pins(),
    {
        self.motor_en.set_low();
        self.motor_1a.set_low();
        self.motor_2a.set_low();
        self.state = State::Off;
    }
}

} // verus!
