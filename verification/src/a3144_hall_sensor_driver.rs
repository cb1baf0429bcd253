//! An A3144 Hall-effect sensor that counts the passes of a magnet.
use vstd::prelude::*;
use std::time::Duration;
use crate::gpio::{input_poll_interrupt, open_gpio, Bias, DriverError, InputLine, Level, Trigger};

verus! {

/// Whether an interrupt poll reports a tick: an event that read the line
/// low, that is a falling edge as the magnet comes by.
pub open spec fn is_tick(outcome: Result<Option<Level>, rppal::gpio::Error>) -> bool {
    outcome matches Ok(Some(Level::Low))
}

/// Only an event that read the line low counts: a high event, a poll with
/// no event and a failed poll do not.
pub proof fn lemma_only_low_events_tick(level: Level, e: rppal::gpio::Error)
    ensures
        is_tick(Ok(Some(level))) <==> level == Level::Low,
        !is_tick(Ok(None)),
        !is_tick(Err(e)),
{
}

/// Whether an interrupt poll reports a tick (see `is_tick`).
pub fn registers_tick(outcome: &Result<Option<Level>, rppal::gpio::Error>) -> (r: bool)
    ensures
        r == is_tick(*outcome),
{
    match outcome {
        Ok(Some(Level::Low)) => true,
        _ => false,
    }
}

/// A Hall sensor on an input line with its pull-up enabled, counting the
/// falling edges it sees.
pub struct HallSensor {
    sens_in: InputLine,
    step_count: i32,
}

impl HallSensor {

    /// The number of ticks counted.
    pub closed spec fn count(&self) -> int {
        self.step_count as int
    }

    /// The BCM number of the sensor's line.
    pub closed spec fn pin(&self) -> u8 {
        self.sens_in.pin()
    }

    /// The resistor enabled on the sensor's line.
    pub closed spec fn bias(&self) -> Bias {
        self.sens_in.bias()
    }

    /// The interrupt trigger set on the sensor's line.
    pub closed spec fn trigger(&self) -> Option<Trigger> {
        self.sens_in.trigger()
    }

    /// The arguments (reset, timeout) of the last interrupt poll, if any.
    pub closed spec fn last_poll(&self) -> Option<(bool, Option<Duration>)> {
        self.sens_in.last_poll()
    }

    /// The level reported by the last interrupt poll; `None` before any
    /// poll, and when the last poll failed or reported no event.
    pub closed spec fn last_event(&self) -> Option<Level> {
        self.sens_in.last_event()
    }

    /// Claims the pin (BCM number) as an input with its pull-up enabled and
    /// sets it to interrupt on falling edges. The count starts at zero.
    #[allow(non_snake_case)]
    pub fn new(PIN_HALL_IN: u8) -> (r: Result<HallSensor, DriverError>)
        ensures
            r matches Ok(s) ==> {
                &&& s.count() == 0
                &&& s.pin() == PIN_HALL_IN
                &&& s.bias() == Bias::PullUp
                &&& s.trigger() == Some(Trigger::FallingEdge)
                &&& s.last_poll() is None
                &&& s.last_event() is None
            },
    {
        let gpio = match open_gpio() {
            Ok(g) => g,
            Err(e) => return Err(e),
        };
        let mut sens_in = match InputLine::claim_pullup(&gpio, PIN_HALL_IN) {
            Ok(p) => p,
            Err(e) => return Err(e),
        };
        match sens_in.set_interrupt(Trigger::FallingEdge) {
            Ok(()) => Ok(HallSensor { sens_in, step_count: 0 }),
            Err(e) => Err(e),
        }
    }

    /// The number of ticks counted.
    pub fn step_count(&self) -> (r: i32)
        ensures
            r == self.count(),
    {
        self.step_count
    }

    /// Waits, with no timeout and after clearing any cached events, for the
    /// next interrupt on the line and counts it if it is a tick (the event
    /// read the line low); an error or any other event leaves the count as
    /// it was.
    pub fn update(&mut self)
        requires
            old(self).count() < i32::MAX,
            old(self).trigger() == Some(Trigger::FallingEdge),
        ensures
            final(self).count() == old(self).count() + if final(self).last_event() == Some(Level::Low) {
                1int
            } else {
                0int
            },
            final(self).last_poll() == Some((true, None::<Duration>)),
            final(self).pin() == old(self).pin(),
            final(self).bias() == old(self).bias(),
            final(self).trigger() == old(self).trigger(),
    {
        let outcome = input_poll_interrupt(&mut self.sens_in, true, None);
        self.record_poll(&outcome);
    }

    /// Counts the outcome of an interrupt poll: one more if it is a tick.
    pub fn record_poll(&mut self, outcome: &Result<Option<Level>, rppal::gpio::Error>)
        requires
            old(self).count() < i32::MAX,
        ensures
            final(self).count() == old(self).count() + if is_tick(*outcome) { 1int } else { 0int },
            final(self).pin() == old(self).pin(),
            final(self).bias() == old(self).bias(),
            final(self).trigger() == old(self).trigger(),
            final(self).last_poll() == old(self).last_poll(),
            final(self).last_event() == old(self).last_event(),
    {
        if registers_tick(outcome) {
            self.step_count = self.step_count + 1;
        }
    }

    /// Counts one tick without waiting for the sensor.
    pub fn fake_tick(&mut self)
        requires
            old(self).count() < i32::MAX,
        ensures
            final(self).count() == old(self).count() + 1,
            final(self).pin() == old(self).pin(),
            final(self).bias() == old(self).bias(),
            final(self).trigger() == old(self).trigger(),
            final(self).last_poll() == old(self).last_poll(),
            final(self).last_event() == old(self).last_event(),
    {
        self.step_count = self.step_count + 1;
    }
}

} // verus!
