use camera_carriage::carriage::{command_effect, command_to_relay, parse_input, Command, Effect, Input};

#[test]
fn digits_name_commands() {
    assert_eq!(parse_input("0"), Input::Command(Command::Home));
    assert_eq!(parse_input("1"), Input::Command(Command::Station1));
    assert_eq!(parse_input("2"), Input::Command(Command::Station2));
    assert_eq!(parse_input("3"), Input::Command(Command::Station3));
    assert_eq!(parse_input("4"), Input::Command(Command::On));
    assert_eq!(parse_input("5"), Input::Command(Command::Off));
    assert_eq!(parse_input("6"), Input::Command(Command::Status));
    assert_eq!(parse_input("7"), Input::Help);
}

#[test]
fn other_lines_are_unrecognised() {
    assert_eq!(parse_input(""), Input::Unrecognised);
    assert_eq!(parse_input("8"), Input::Unrecognised);
    assert_eq!(parse_input("12"), Input::Unrecognised);
    assert_eq!(parse_input(" 1"), Input::Unrecognised);
    assert_eq!(parse_input("x"), Input::Unrecognised);
    assert_eq!(parse_input("é"), Input::Unrecognised);
}

#[test]
fn help_and_unrecognised_relay_off() {
    assert_eq!(command_to_relay(Input::Help), Command::Off);
    assert_eq!(command_to_relay(Input::Unrecognised), Command::Off);
    assert_eq!(command_to_relay(Input::Command(Command::Station2)), Command::Station2);
}

#[test]
fn command_codes() {
    assert_eq!(Command::Home.code(), 0);
    assert_eq!(Command::Station1.code(), 10);
    assert_eq!(Command::Station2.code(), 50);
    assert_eq!(Command::Station3.code(), 150);
    assert_eq!(Command::On.code(), 1);
    assert_eq!(Command::Off.code(), 2);
    assert_eq!(Command::Status.code(), 3);
}

#[test]
fn command_effects() {
    assert_eq!(command_effect(Command::Home), Effect::Target(0));
    assert_eq!(command_effect(Command::Station1), Effect::Target(10));
    assert_eq!(command_effect(Command::Station2), Effect::Target(50));
    assert_eq!(command_effect(Command::Station3), Effect::Target(150));
    assert_eq!(command_effect(Command::On), Effect::Power(true));
    assert_eq!(command_effect(Command::Off), Effect::Power(false));
    assert_eq!(command_effect(Command::Status), Effect::ReportStatus);
}
