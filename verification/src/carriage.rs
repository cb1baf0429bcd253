//! The camera carriage: operator commands and how the stepper answers them.
use vstd::prelude::*;
use crate::gpio::Level;
use crate::l239d_driver::four_pin_stepper_motor::Motor;

verus! {

/// A command of the operator. The stations are printers, each at its own
/// distance from home.
#[derive(Debug, Clone, Copy, PartialEq, Eq, Structural)]
pub enum Command {
    Home,
    Station1,
    Station2,
    Station3,
    On,
    Off,
    Status,
}

/// The number of a command: for home and the stations, their distance
/// from home in mm; for the others an arbitrary code.
pub open spec fn command_code(command: Command) -> i32 {
    match command {
        Command::Home => 0,
        Command::Station1 => 10,
        Command::Station2 => 50,
        Command::Station3 => 150,
        Command::On => 1,
        Command::Off => 2,
        Command::Status => 3,
    }
}

impl Command {
    /// The number of the command (see `command_code`).
    pub fn code(self) -> (r: i32)
        ensures
            r == command_code(self),
    {
        match self {
            Command::Home => 0,
            Command::Station1 => 10,
            Command::Station2 => 50,
            Command::Station3 => 150,
            Command::On => 1,
            Command::Off => 2,
            Command::Status => 3,
        }
    }
}

/// What a line of operator input asks for.
#[derive(Debug, Clone, Copy, PartialEq, Eq, Structural)]
pub enum Input {
    /// One of the digits 0 to 6: a command.
    Command(Command),
    /// The digit 7: print the list of commands.
    Help,
    /// Anything else.
    Unrecognised,
}

/// The input that a line (its line break removed) stands for.
pub open spec fn parsed_input(line: Seq<char>) -> Input {
    if line.len() != 1 {
        Input::Unrecognised
    } else if line[0] == '0' {
        Input::Command(Command::Home)
    } else if line[0] == '1' {
        Input::Command(Command::Station1)
    } else if line[0] == '2' {
        Input::Command(Command::Station2)
    } else if line[0] == '3' {
        Input::Command(Command::Station3)
    } else if line[0] == '4' {
        Input::Command(Command::On)
    } else if line[0] == '5' {
        Input::Command(Command::Off)
    } else if line[0] == '6' {
        Input::Command(Command::Status)
    } else if line[0] == '7' {
        Input::Help
    } else {
        Input::Unrecognised
    }
}

/// Reads a line of operator input, its line break removed.
pub fn parse_input(line: &str) -> (r: Input)
    ensures
        r == parsed_input(line@),
{
    if line.unicode_len() != 1 {
        return Input::Unrecognised;
    }
    let c = line.get_char(0);
    match c {
        '0' => Input::Command(Command::Home),
        '1' => Input::Command(Command::Station1),
        '2' => Input::Command(Command::Station2),
        '3' => Input::Command(Command::Station3),
        '4' => Input::Command(Command::On),
        '5' => Input::Command(Command::Off),
        '6' => Input::Command(Command::Status),
        '7' => Input::Help,
        _ => Input::Unrecognised,
    }
}

/// The command relayed for a line of input: the one it names; `Off` for a
/// request for help and for an unrecognised line.
pub open spec fn relayed(input: Input) -> Command {
    match input {
        Input::Command(c) => c,
        _ => Command::Off,
    }
}

/// A line that names a command relays that very command; only a request
/// for help and an unrecognised line relay `Off`.
pub proof fn lemma_relays_the_named_command(c: Command)
    ensures
        relayed(Input::Command(c)) == c,
        relayed(Input::Help) == Command::Off,
        relayed(Input::Unrecognised) == Command::Off,
{
}

/// The place of a command in the list printed to the operator.
pub open spec fn menu_position(c: Command) -> int {
    match c {
        Command::Home => 0,
        Command::Station1 => 1,
        Command::Station2 => 2,
        Command::Station3 => 3,
        Command::On => 4,
        Command::Off => 5,
        Command::Status => 6,
    }
}

/// A one-character line that is the digit of a command's place in the list
/// reads as that command and relays it; the digit 7 asks for help, and any
/// other line is unrecognised.
pub proof fn lemma_digit_names_command(line: Seq<char>, c: Command)
    ensures
        (line.len() == 1 && line[0] as int == '0' as int + menu_position(c))
            <==> parsed_input(line) == Input::Command(c),
        parsed_input(line) == Input::Command(c) ==> relayed(parsed_input(line)) == c,
        parsed_input(line) == Input::Help <==> line == seq!['7'],
{
    if line.len() == 1 && parsed_input(line) == Input::Help {
        assert(line =~= seq!['7']);
    }
}

/// Homes and stations are targets at their distances from home: home at
/// 0 mm and the printers at 10, 50 and 150 mm, in that order.
pub proof fn lemma_targets_are_distances(c: Command)
    ensures
        effect_of(c) matches Effect::Target(t) ==> t == command_code(c),
        effect_of(Command::Home) == Effect::Target(0),
        effect_of(Command::Station1) == Effect::Target(10),
        effect_of(Command::Station2) == Effect::Target(50),
        effect_of(Command::Station3) == Effect::Target(150),
        effect_of(Command::On) == Effect::Power(true),
        effect_of(Command::Off) == Effect::Power(false),
        effect_of(Command::Status) == Effect::ReportStatus,
        command_code(Command::On) == 1,
        command_code(Command::Off) == 2,
        command_code(Command::Status) == 3,
{
}

/// The command relayed for a line of input (see `relayed`).
pub fn command_to_relay(input: Input) -> (r: Command)
    ensures
        r == relayed(input),
{
    match input {
        Input::Command(c) => c,
        _ => Command::Off,
    }
}

/// What the carriage does on a command.
#[derive(Debug, Clone, Copy, PartialEq, Eq, Structural)]
pub enum Effect {
    /// Head for this distance from home, in mm.
    Target(i32),
    /// Enable (`true`) or disable the stepper, and navigation with it.
    Power(bool),
    /// Report the motor's status.
    ReportStatus,
}

/// What the carriage does on `command`.
pub open spec fn effect_of(command: Command) -> Effect {
    match command {
        Command::Home => Effect::Target(command_code(Command::Home)),
        Command::Station1 => Effect::Target(command_code(Command::Station1)),
        Command::Station2 => Effect::Target(command_code(Command::Station2)),
        Command::Station3 => Effect::Target(command_code(Command::Station3)),
        Command::On => Effect::Power(true),
        Command::Off => Effect::Power(false),
        Command::Status => Effect::ReportStatus,
    }
}

/// What the carriage does on `command` (see `effect_of`).
pub fn command_effect(command: Command) -> (r: Effect)
    ensures
        r == effect_of(command),
{
    match command {
        Command::Home => Effect::Target(Command::Home.code()),
        Command::Station1 => Effect::Target(Command::Station1.code()),
        Command::Station2 => Effect::Target(Command::Station2.code()),
        Command::Station3 => Effect::Target(Command::Station3.code()),
        Command::On => Effect::Power(true),
        Command::Off => Effect::Power(false),
        Command::Status => Effect::ReportStatus,
    }
}

/// The enable lines as `set_power(on)` leaves them.
pub open spec fn enables_for(on: bool) -> (Option<Level>, Option<Level>) {
    if on {
        (Some(Level::High), Some(Level::High))
    } else {
        (Some(Level::Low), Some(Level::Low))
    }
}

/// Navigation is on exactly when the stepper is enabled (before the first
/// power command, neither is).
pub open spec fn navigation_matches_power(nav_flag: bool, motor: &Motor) -> bool {
    motor.enables() == enables_for(nav_flag) || (!nav_flag && motor.enables() == (None::<Level>, None::<Level>))
}

/// Applies an operator command: a station (or home) becomes the target, on
/// and off switch the stepper and navigation together, and a status request
/// is handed back to the caller, who reports it (the result is `true`).
pub fn handle_state_change(new_state: Command, old_target: &mut i32, nav_flag: &mut bool, motor: &mut Motor) -> (status_requested: bool)
    ensures
        status_requested == (effect_of(new_state) == Effect::ReportStatus),
        *final(old_target) == (match effect_of(new_state) {
            Effect::Target(t) => t,
            _ => *old(old_target),
        }),
        *final(nav_flag) == (match effect_of(new_state) {
            Effect::Power(on) => on,
            _ => *old(nav_flag),
        }),
        final(motor).enables() == (match effect_of(new_state) {
            Effect::Power(on) => enables_for(on),
            _ => old(motor).enables(),
        }),
        final(motor).model() == old(motor).model(),
        final(motor).coils() == old(motor).coils(),
        final(motor).pins() == old(motor).pins(),
        final(motor).clock_start() == old(motor).clock_start(),
        navigation_matches_power(*old(nav_flag), old(motor)) ==> navigation_matches_power(*final(nav_flag), final(motor)),
{
    match command_effect(new_state) {
        Effect::Target(t) => {
            *old_target = t;
            false
        },
        Effect::Power(on) => {
            motor.set_power(on);
            *nav_flag = on;
            false
        },
        Effect::ReportStatus => true,
    }
}

} // verus!
