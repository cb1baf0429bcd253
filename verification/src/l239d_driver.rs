//! Drivers for motors wired to an L293D half-H bridge.
use vstd::prelude::*;
use crate::gpio::Level;

pub mod four_pin_stepper_motor;
pub mod motion;

verus! {

/// What a motor is doing.
#[derive(Debug, Clone, Copy, PartialEq, Eq, Structural)]
pub enum State {
    Forward,
    Backward,
    Stopped,
    Off,
}

/// Levels on the bridge inputs 1A, 2A (first winding) and 3A, 4A (second
/// winding) of a bipolar stepper.
#[derive(Debug, Clone, Copy, PartialEq, Eq, Structural)]
pub struct CoilLevels {
    pub a1: Level,
    pub a2: Level,
    pub a3: Level,
    pub a4: Level,
}

/// The phase of the drive sequence at a position: `steps_taken` modulo 4,
/// in 0..4 also for negative positions.
pub open spec fn phase_of(steps_taken: int) -> int {
    steps_taken % 4
}

/// The full-step drive sequence: the coil levels for phases 0 to 3.
pub open spec fn coil_pattern(phase: int) -> CoilLevels {
    if phase == 0 {
        CoilLevels { a1: Level::Low, a2: Level::High, a3: Level::High, a4: Level::Low }
    } else if phase == 1 {
        CoilLevels { a1: Level::High, a2: Level::Low, a3: Level::High, a4: Level::Low }
    } else if phase == 2 {
        CoilLevels { a1: Level::High, a2: Level::Low, a3: Level::Low, a4: Level::High }
    } else {
        CoilLevels { a1: Level::Low, a2: Level::High, a3: Level::Low, a4: Level::High }
    }
}

/// The levels commanded on the coil inputs (1A, 2A, 3A, 4A) once a motor at
/// position `steps_taken` has driven its windings.
pub open spec fn driven_coils(steps_taken: int) -> (Option<Level>, Option<Level>, Option<Level>, Option<Level>) {
    let c = coil_pattern(phase_of(steps_taken));
    (Some(c.a1), Some(c.a2), Some(c.a3), Some(c.a4))
}

/// The coil levels for a motor that has taken `steps_taken` steps: the
/// pattern of its phase.
pub fn coil_levels(steps_taken: i32) -> (r: CoilLevels)
    ensures
        r == coil_pattern(phase_of(steps_taken as int)),
{
    let rem: i32 = steps_taken % 4;
    let this_step: i32 = if rem < 0 { rem + 4 } else { rem };
    assert(this_step as int == phase_of(steps_taken as int));
    if this_step == 0 {
        CoilLevels { a1: Level::Low, a2: Level::High, a3: Level::High, a4: Level::Low }
    } else if this_step == 1 {
        CoilLevels { a1: Level::High, a2: Level::Low, a3: Level::High, a4: Level::Low }
    } else if this_step == 2 {
        CoilLevels { a1: Level::High, a2: Level::Low, a3: Level::Low, a4: Level::High }
    } else {
        CoilLevels { a1: Level::Low, a2: Level::High, a3: Level::Low, a4: Level::High }
    }
}

/// The lines a motor drives at each position, on (1A, 2A, 3A, 4A): at a
/// multiple of four (Low, High, High, Low), and each step forward from there
/// reverses first winding A, then winding B, then A, then B again; so 1A
/// and 2A, and 3A and 4A, are always driven apart.
pub proof fn lemma_driven_coils_by_position(steps_taken: int)
    ensures
        steps_taken % 4 == 0 ==> driven_coils(steps_taken) == (Some(Level::Low), Some(Level::High), Some(Level::High), Some(Level::Low)),
        steps_taken % 4 == 1 ==> driven_coils(steps_taken) == (Some(Level::High), Some(Level::Low), Some(Level::High), Some(Level::Low)),
        steps_taken % 4 == 2 ==> driven_coils(steps_taken) == (Some(Level::High), Some(Level::Low), Some(Level::Low), Some(Level::High)),
        steps_taken % 4 == 3 ==> driven_coils(steps_taken) == (Some(Level::Low), Some(Level::High), Some(Level::Low), Some(Level::High)),
        driven_coils(steps_taken).0 != driven_coils(steps_taken).1,
        driven_coils(steps_taken).2 != driven_coils(steps_taken).3,
        driven_coils(steps_taken + 1).0 == driven_coils(steps_taken).1 <==> steps_taken % 2 == 0,
        driven_coils(steps_taken + 1).2 == driven_coils(steps_taken).2 <==> steps_taken % 2 == 0,
{
}

/// In every phase of the drive sequence each winding is driven from both
/// ends in opposite directions: 1A differs from 2A and 3A from 4A.
pub proof fn lemma_windings_driven_across(phase: int)
    ensures
        coil_pattern(phase).a1 != coil_pattern(phase).a2,
        coil_pattern(phase).a3 != coil_pattern(phase).a4,
{
}

/// Going from one phase to the next (0 to 1, 1 to 2, 2 to 3, 3 to 0)
/// reverses the current in exactly one of the two windings.
pub proof fn lemma_next_phase_reverses_one_winding(phase: int)
    requires
        0 <= phase < 4,
    ensures
        ({
            let c = coil_pattern(phase);
            let d = coil_pattern((phase + 1) % 4);
            (c.a1 != d.a1) != (c.a3 != d.a3)
        }),
{
}

/// Every position has a phase in 0..4; one step forward moves the drive to
/// the next phase of the sequence and one step back to the previous one.
pub proof fn lemma_steps_cycle_phases(steps_taken: int)
    ensures
        0 <= phase_of(steps_taken) < 4,
        phase_of(steps_taken + 1) == (phase_of(steps_taken) + 1) % 4,
        phase_of(steps_taken - 1) == (phase_of(steps_taken) + 3) % 4,
{
}

} // verus!
