//! GPIO access through `rppal`, and what this library has set up and driven
//! on each line.
use vstd::prelude::*;
use std::time::Duration;
use rppal::gpio::{Gpio, InputPin, OutputPin, Pin};

verus! {

#[verifier::external_type_specification]
#[verifier::external_body]
pub struct ExGpio(Gpio);

#[verifier::external_type_specification]
#[verifier::external_body]
pub struct ExPin(Pin);

#[verifier::external_type_specification]
#[verifier::external_body]
pub struct ExInputPin(InputPin);

#[verifier::external_type_specification]
#[verifier::external_body]
pub struct ExOutputPin(OutputPin);

#[verifier::external_type_specification]
#[verifier::external_body]
pub struct ExGpioError(rppal::gpio::Error);

/// Logic level of a GPIO line.
#[derive(Clone, Copy, Debug, PartialEq, Eq, Structural)]
pub enum Level {
    Low,
    High,
}

/// Edge (or edges) on which an input line raises a synchronous interrupt.
#[derive(Clone, Copy, Debug, PartialEq, Eq, Structural)]
pub enum Trigger {
    Disabled,
    RisingEdge,
    FallingEdge,
    Both,
}

/// Built-in resistor of an input line.
#[derive(Clone, Copy, Debug, PartialEq, Eq, Structural)]
pub enum Bias {
    Off,
    PullDown,
    PullUp,
}

/// Why a driver could not be set up.
#[derive(Debug)]
pub enum DriverError {
    /// The GPIO peripheral, or one of its pins, could not be claimed.
    Gpio(rppal::gpio::Error),
}

/// A pin claimed from the GPIO peripheral, with its BCM number.
pub struct ClaimedPin {
    pin: Pin,
    number: u8,
}

impl ClaimedPin {
    /// The BCM number of the pin.
    pub closed spec fn number(&self) -> u8 {
        self.number
    }
}

/// An output line, its BCM number, and the level last driven on it.
pub struct OutputLine {
    output: OutputPin,
    number: u8,
    commanded: Option<Level>,
}

/// An input line, its BCM number, its resistor, the interrupt trigger set
/// on it through this value, and the arguments and reported level of the
/// last interrupt poll.
pub struct InputLine {
    input: InputPin,
    number: u8,
    bias: Bias,
    trigger: Option<Trigger>,
    last_poll: Option<(bool, Option<Duration>)>,
    last_event: Option<Level>,
}

/// Calls `rppal::gpio::Gpio::new`, which opens the GPIO peripheral of the
/// board. Whether it succeeds depends on the machine (model, device files,
/// permissions), so nothing is claimed of the result.
#[verifier::external_body]
fn gpio_new() -> Result<Gpio, rppal::gpio::Error> {
    Gpio::new()
}

/// Calls `rppal::gpio::Gpio::get`, which claims the pin with the given BCM
/// number and, on success, returns that pin. It fails when the board has no
/// such pin or the pin is already claimed; both depend on the machine and
/// on the process, so when it succeeds is not claimed.
#[verifier::external_body]
fn gpio_get(gpio: &Gpio, pin: u8) -> (r: Result<ClaimedPin, rppal::gpio::Error>)
    ensures
        r matches Ok(p) ==> p.number() == pin,
{
    match gpio.get(pin) {
        Ok(p) => Ok(ClaimedPin { pin: p, number: pin }),
        Err(e) => Err(e),
    }
}

/// Calls `rppal::gpio::Pin::into_output`, which switches the pin to output
/// mode and leaves its level as it was, so no level is recorded yet.
#[verifier::external_body]
fn pin_into_output(p: ClaimedPin) -> (r: OutputLine)
    ensures
        r.pin() == p.number(),
        r.commanded() is None,
{
    OutputLine { output: p.pin.into_output(), number: p.number, commanded: None }
}

/// Calls `rppal::gpio::Pin::into_input_pullup`, which switches the pin to
/// input mode with its pull-up resistor enabled. No trigger is recorded
/// yet (a trigger set on the pin by an earlier holder may remain in rppal).
#[verifier::external_body]
fn pin_into_input_pullup(p: ClaimedPin) -> (r: InputLine)
    ensures
        r.pin() == p.number(),
        r.bias() == Bias::PullUp,
        r.trigger() is None,
        r.last_poll() is None,
        r.last_event() is None,
{
    InputLine {
        input: p.pin.into_input_pullup(),
        number: p.number,
        bias: Bias::PullUp,
        trigger: None,
        last_poll: None,
        last_event: None,
    }
}

/// Calls `rppal::gpio::OutputPin::set_high`, which sets the pin's output
/// state high, and records that level.
#[verifier::external_body]
fn output_set_high(line: &mut OutputLine)
    ensures
        final(line).commanded() == Some(Level::High),
        final(line).pin() == old(line).pin(),
{
    line.output.set_high();
    line.commanded = Some(Level::High);
}

/// Calls `rppal::gpio::OutputPin::set_low`, which sets the pin's output
/// state low, and records that level.
#[verifier::external_body]
fn output_set_low(line: &mut OutputLine)
    ensures
        final(line).commanded() == Some(Level::Low),
        final(line).pin() == old(line).pin(),
{
    line.output.set_low();
    line.commanded = Some(Level::Low);
}

/// Calls `rppal::gpio::InputPin::set_interrupt` with the trigger given,
/// which configures a synchronous interrupt on the line, and records the
/// trigger when it succeeds. Whether it succeeds depends on the kernel, so
/// that is not claimed; nor is what is set up on the line after a failure.
#[verifier::external_body]
fn input_set_interrupt(line: &mut InputLine, trigger: Trigger) -> (r: Result<(), rppal::gpio::Error>)
    ensures
        r is Ok ==> final(line).trigger() == Some(trigger),
        final(line).pin() == old(line).pin(),
        final(line).bias() == old(line).bias(),
        final(line).last_poll() == old(line).last_poll(),
        final(line).last_event() == old(line).last_event(),
{
    let t = match trigger {
        Trigger::Disabled => rppal::gpio::Trigger::Disabled,
        Trigger::RisingEdge => rppal::gpio::Trigger::RisingEdge,
        Trigger::FallingEdge => rppal::gpio::Trigger::FallingEdge,
        Trigger::Both => rppal::gpio::Trigger::Both,
    };
    match line.input.set_interrupt(t) {
        Ok(()) => {
            line.trigger = Some(trigger);
            Ok(())
        },
        Err(e) => Err(e),
    }
}

/// Calls `rppal::gpio::InputPin::poll_interrupt` with the arguments given,
/// and records them and the level reported. The call blocks until an
/// interrupt event arrives on the line and returns the level that the event
/// reported; what comes back depends on the outside world, so it is not
/// claimed. Only polls without a timeout (rppal multiplies a timeout's
/// seconds by 1000, which can overflow) on a line with an interrupt trigger
/// set through it (without one, no event can ever arrive) are admitted.
#[verifier::external_body]
pub(crate) fn input_poll_interrupt(
    line: &mut InputLine,
    reset: bool,
    timeout: Option<Duration>,
) -> (r: Result<Option<Level>, rppal::gpio::Error>)
    requires
        timeout is None,
        old(line).trigger() matches Some(t) && t != Trigger::Disabled,
    ensures
        final(line).last_poll() == Some((reset, timeout)),
        final(line).last_event() == (match r {
            Ok(Some(level)) => Some(level),
            _ => None::<Level>,
        }),
        final(line).pin() == old(line).pin(),
        final(line).bias() == old(line).bias(),
        final(line).trigger() == old(line).trigger(),
{
    line.last_poll = Some((reset, timeout));
    let (event, r) = match line.input.poll_interrupt(reset, timeout) {
        Ok(Some(rppal::gpio::Level::Low)) => (Some(Level::Low), Ok(Some(Level::Low))),
        Ok(Some(rppal::gpio::Level::High)) => (Some(Level::High), Ok(Some(Level::High))),
        Ok(None) => (None, Ok(None)),
        Err(e) => (None, Err(e)),
    };
    line.last_event = event;
    r
}

/// Opens the GPIO peripheral.
pub(crate) fn open_gpio() -> (r: Result<Gpio, DriverError>) {
    match gpio_new() {
        Ok(gpio) => Ok(gpio),
        Err(e) => Err(DriverError::Gpio(e)),
    }
}

impl OutputLine {
    /// The BCM number of the line.
    pub closed spec fn pin(&self) -> u8 {
        self.number
    }

    /// The level last driven on the line; `None` until the first write
    /// (switching a pin to output keeps its old level).
    pub closed spec fn commanded(&self) -> Option<Level> {
        self.commanded
    }

    /// Claims the pin with the given BCM number as an output line.
    pub fn claim(gpio: &Gpio, pin: u8) -> (r: Result<OutputLine, DriverError>)
        ensures
            r matches Ok(line) ==> line.pin() == pin && line.commanded() is None,
    {
        match gpio_get(gpio, pin) {
            Ok(p) => Ok(pin_into_output(p)),
            Err(e) => Err(DriverError::Gpio(e)),
        }
    }

    /// Drives the line high.
    pub fn set_high(&mut self)
        ensures
            final(self).commanded() == Some(Level::High),
            final(self).pin() == old(self).pin(),
    {
        output_set_high(self);
    }

    /// Drives the line low.
    pub fn set_low(&mut self)
        ensures
            final(self).commanded() == Some(Level::Low),
            final(self).pin() == old(self).pin(),
    {
        output_set_low(self);
    }

    /// Drives the line to the level given.
    pub fn write(&mut self, level: Level)
        ensures
            final(self).commanded() == Some(level),
            final(self).pin() == old(self).pin(),
    {
        match level {
            Level::High => self.set_high(),
            Level::Low => self.set_low(),
        }
    }
}

impl InputLine {
    /// The BCM number of the line.
    pub closed spec fn pin(&self) -> u8 {
        self.number
    }

    /// The resistor enabled on the line.
    pub closed spec fn bias(&self) -> Bias {
        self.bias
    }

    /// The interrupt trigger set on the line, once one has been set.
    pub closed spec fn trigger(&self) -> Option<Trigger> {
        self.trigger
    }

    /// The arguments (reset, timeout) of the last interrupt poll, if any.
    pub closed spec fn last_poll(&self) -> Option<(bool, Option<Duration>)> {
        self.last_poll
    }

    /// The level reported by the last interrupt poll; `None` before any
    /// poll, and when the last poll failed or reported no event.
    pub closed spec fn last_event(&self) -> Option<Level> {
        self.last_event
    }

    /// Claims the pin with the given BCM number as an input line with its
    /// pull-up resistor enabled.
    pub fn claim_pullup(gpio: &Gpio, pin: u8) -> (r: Result<InputLine, DriverError>)
        ensures
            r matches Ok(line) ==> {
                &&& line.pin() == pin
                &&& line.bias() == Bias::PullUp
                &&& line.trigger() is None
                &&& line.last_poll() is None
                &&& line.last_event() is None
            },
    {
        match gpio_get(gpio, pin) {
            Ok(p) => Ok(pin_into_input_pullup(p)),
            Err(e) => Err(DriverError::Gpio(e)),
        }
    }

    /// Configures a synchronous interrupt on the line.
    pub fn set_interrupt(&mut self, trigger: Trigger) -> (r: Result<(), DriverError>)
        ensures
            r is Ok ==> final(self).trigger() == Some(trigger),
            final(self).pin() == old(self).pin(),
            final(self).bias() == old(self).bias(),
            final(self).last_poll() == old(self).last_poll(),
            final(self).last_event() == old(self).last_event(),
    {
        match input_set_interrupt(self, trigger) {
            Ok(()) => Ok(()),
            Err(e) => Err(DriverError::Gpio(e)),
        }
    }
}

} // verus!
