use hlshell::acpi::AcpiController;
use hlshell::cmd::cc;
use hlshell::cmd::chcolor;
use hlshell::cmd::clrs;
use hlshell::cmd::cmd_hist;
use hlshell::cmd::crasher;
use hlshell::cmd::date_command;
use hlshell::cmd::datetime_command;
use hlshell::cmd::document;
use hlshell::cmd::help;
use hlshell::cmd::reboot_command;
use hlshell::cmd::run;
use hlshell::cmd::shutdown_command;
use hlshell::cmd::time_command;
use hlshell::color::Color;
use hlshell::effect::poll_done;
use hlshell::effect::Effect;
use hlshell::effect::Effects;
use hlshell::history::HistoryLog;
use hlshell::registry::Handler;
use hlshell::rtc::DateTime;

fn say(text: &str) -> Effect {
    Effect::Print(format!("{}\n", text))
}

fn complain(text: &str) -> Effect {
    Effect::PrintColored(text.to_string(), Color::LightRed, Color::Black)
}

fn reading() -> DateTime {
    DateTime { second: 5, minute: 7, hour: 23, day: 1, month: 2, year: 25 }
}

fn shutdown_effects() -> Vec<Effect> {
    vec![
        say("Shutting down system..."),
        Effect::PortWrite16 { port: 0x604, word: 0x2000 },
        Effect::PortWrite16 { port: 0x604, word: 0x2000 },
        Effect::PortWrite16 { port: 0xB004, word: 0x2000 },
        Effect::PortWrite16 { port: 0x4004, word: 0x3400 },
        say("Could not shutdown system via hardware."),
        say("On real systems, this would power off the machine."),
    ]
}

fn reboot_effects() -> Vec<Effect> {
    vec![
        say("Rebooting system..."),
        Effect::PortPoll { port: 0x64, mask: 0x02, limit: 10000 },
        Effect::PortWrite8 { port: 0x64, byte: 0xFE },
        Effect::Delay(1000000),
        say("Could not reboot system via hardware."),
        say("On real systems, this would restart the machine."),
    ]
}

#[test]
fn effects_are_appended_after_what_is_there() {
    let mut out = Effects::new();
    assert_eq!(out.len(), 0);
    out.print("a".to_string());
    out.println("b".to_string());
    out.print_colored("c".to_string(), Color::Pink, Color::White);
    out.push(Effect::Halt);
    assert_eq!(clrs(vec![], &mut out), 1);
    assert_eq!(out.len(), 5);
    assert_eq!(
        out.list,
        vec![
            Effect::Print("a".to_string()),
            Effect::Print("b\n".to_string()),
            Effect::PrintColored("c".to_string(), Color::Pink, Color::White),
            Effect::Halt,
            Effect::ClearScreen,
        ]
    );
}

#[test]
fn poll_is_done_when_no_masked_bit_is_set() {
    assert!(poll_done(0x00, 0x02));
    assert!(poll_done(0xFD, 0x02));
    assert!(!poll_done(0x02, 0x02));
    assert!(!poll_done(0xFF, 0x02));
    assert!(poll_done(0xFF, 0x00));
}

#[test]
fn clrs_clears_and_returns_one() {
    let mut out = Effects::new();
    assert_eq!(clrs(vec![], &mut out), 1);
    assert_eq!(out.list, vec![Effect::ClearScreen]);
}

#[test]
fn help_lists_every_command() {
    let mut out = Effects::new();
    assert_eq!(help(vec![], false, &mut out), 0);
    let expected = vec![
        say("HighlightOS Shell\n\n  List of available commands:"),
        say(". clrs   >>  clear the output"),
        say(". help   >>  show a list of available commands"),
        say(". test   >>  test :)"),
        say(". cc   >>  display copyright info"),
        say(". getdoc [cmd]  >>  display the documentation of selected command"),
        say(". chcolor [fg] [bg]  >>  change text color"),
        say(". history   >>  display command history"),
        say(". shutdown   >>  shutdown the system"),
        say(". reboot   >>  reboot the system"),
        say(". poweroff   >>  shutdown the system (alias for shutdown)"),
        say(". time   >>  show current time"),
        say(". date   >>  show current date"),
        say(". datetime   >>  show full date and time"),
    ];
    assert_eq!(out.list, expected);
}

#[test]
fn help_of_a_debug_build_lists_the_crash_command_last() {
    let mut out = Effects::new();
    assert_eq!(help(vec!["ignored"], true, &mut out), 0);
    assert_eq!(out.list.len(), 15);
    assert_eq!(out.list[14], say(". crash_kernel   >>  DEV | cause a kernel panic"));
}

#[test]
fn test_command_always_returns_two() {
    let mut out = Effects::new();
    assert_eq!(hlshell::cmd::test(vec![], &mut out), 2);
    assert_eq!(hlshell::cmd::test(vec!["x", "y"], &mut out), 2);
    let line = say("hello. this is a test command. it's life goal is to always return 2.");
    assert_eq!(out.list, vec![line.clone(), line]);
}

#[test]
fn cc_prints_the_licence_notice() {
    let mut out = Effects::new();
    assert_eq!(cc(vec![], &mut out), 0);
    assert_eq!(out.list.len(), 1);
    let text = match &out.list[0] {
        Effect::Print(text) => text.clone(),
        other => panic!("unexpected effect {:?}", other),
    };
    let lines: Vec<&str> = text.split('\n').collect();
    assert_eq!(lines.len(), 14);
    assert_eq!(lines[0], "Copyright (C) 2025 Adam Perkowski");
    assert_eq!(lines[1], "");
    assert_eq!(lines[2], "    This program is free software: you can redistribute it and/or modify");
    assert_eq!(lines[4], "    the Free Software Foundation,version 3 of the License.");
    assert_eq!(lines[12], "    along with this program.  If not, see https://www.gnu.org/licenses .");
    assert_eq!(lines[13], "");
}

#[test]
fn getdoc_prints_the_documentation_of_a_command() {
    let mut out = Effects::new();
    assert_eq!(document(vec!["clrs"], false, &mut out), 0);
    assert_eq!(out.list, vec![say("clrs  >>  clear the output")]);
}

#[test]
fn getdoc_of_an_unknown_command_is_a_critical_error() {
    let mut out = Effects::new();
    assert_eq!(document(vec!["nosuchcmd"], false, &mut out), 3);
    assert_eq!(out.list, vec![complain("Command not found.\n")]);
}

#[test]
fn getdoc_without_argument_is_a_user_error() {
    let mut out = Effects::new();
    assert_eq!(document(vec![], false, &mut out), 4);
    assert_eq!(out.list, vec![complain("No command specified.\n")]);
}

#[test]
fn getdoc_looks_at_its_first_argument_only() {
    let mut out = Effects::new();
    assert_eq!(document(vec!["getdoc\n", "nosuchcmd"], false, &mut out), 0);
    assert_eq!(
        out.list,
        vec![say("getdoc  >>  display the documentation of selected command")]
    );
    let mut out = Effects::new();
    assert_eq!(document(vec!["", "clrs"], false, &mut out), 3);
}

#[test]
fn getdoc_knows_the_crash_command_in_debug_builds_only() {
    let mut out = Effects::new();
    assert_eq!(document(vec!["crash_kernel"], false, &mut out), 3);
    let mut out = Effects::new();
    assert_eq!(document(vec!["crash_kernel"], true, &mut out), 0);
    assert_eq!(out.list, vec![say("crash_kernel  >>  DEV | cause a kernel panic")]);
}

#[test]
fn chcolor_with_one_argument_is_a_user_error() {
    let mut out = Effects::new();
    assert_eq!(chcolor(vec!["red"], &mut out), 4);
    assert_eq!(
        out.list,
        vec![complain(
            "Specify both foreground and background color.\nExample usage: chcolor red white\n"
        )]
    );
}

#[test]
fn chcolor_with_two_colours_changes_the_display() {
    let mut out = Effects::new();
    assert_eq!(chcolor(vec!["red", "white"], &mut out), 0);
    assert_eq!(
        out.list,
        vec![Effect::ChangeColor(Color::Red, Color::White), Effect::ClearScreen]
    );
}

#[test]
fn chcolor_with_an_unknown_colour_changes_nothing() {
    let mut out = Effects::new();
    assert_eq!(chcolor(vec!["red", "bogus"], &mut out), 4);
    assert_eq!(out.list, vec![complain("Color not found: bogus\n")]);
    let mut out = Effects::new();
    assert_eq!(chcolor(vec!["bogus", "alsobogus"], &mut out), 4);
    assert_eq!(out.list, vec![complain("Color not found: bogus\n")]);
}

#[test]
fn chcolor_wants_exactly_two_arguments() {
    let mut out = Effects::new();
    assert_eq!(chcolor(vec![], &mut out), 4);
    assert_eq!(chcolor(vec!["red", "white", "blue"], &mut out), 4);
    assert_eq!(out.list.len(), 2);
    assert_eq!(out.list[0], out.list[1]);
}

#[test]
fn chcolor_ignores_newlines_in_its_arguments() {
    let mut out = Effects::new();
    assert_eq!(chcolor(vec!["lightblue", "black\n"], &mut out), 0);
    assert_eq!(
        out.list,
        vec![Effect::ChangeColor(Color::LightBlue, Color::Black), Effect::ClearScreen]
    );
}

#[test]
fn history_command_prints_the_log_oldest_first() {
    let mut log = HistoryLog::new();
    for line in ["help", "help", "test"] {
        log.record(line.to_string());
    }
    let mut out = Effects::new();
    assert_eq!(cmd_hist(vec![], &log, &mut out), 0);
    assert_eq!(out.list, vec![say("help"), say("test")]);
}

#[test]
fn history_command_prints_nothing_for_an_empty_log() {
    let mut out = Effects::new();
    assert_eq!(cmd_hist(vec![], &HistoryLog::new(), &mut out), 0);
    assert!(out.list.is_empty());
}

#[test]
fn shutdown_tries_four_port_sequences() {
    let mut out = Effects::new();
    assert_eq!(shutdown_command(vec![], &mut out), 0);
    assert_eq!(out.list, shutdown_effects());
}

#[test]
fn reboot_pulses_the_reset_line() {
    let mut out = Effects::new();
    assert_eq!(reboot_command(vec![], &mut out), 0);
    assert_eq!(out.list, reboot_effects());
}

#[test]
fn controller_does_what_the_commands_do() {
    let mut controller = AcpiController::new();
    let mut out = Effects::new();
    controller.shutdown(&mut out);
    assert_eq!(out.list, shutdown_effects());
    let mut out = Effects::new();
    controller.reboot(&mut out);
    assert_eq!(out.list, reboot_effects());
}

#[test]
fn clock_commands_print_the_reading() {
    let mut out = Effects::new();
    assert_eq!(time_command(vec![], Some(reading()), &mut out), 0);
    assert_eq!(date_command(vec![], Some(reading()), &mut out), 0);
    assert_eq!(datetime_command(vec![], Some(reading()), &mut out), 0);
    assert_eq!(
        out.list,
        vec![
            say("Current time: 23:07:05"),
            say("Current date: 01/02/2025"),
            say("Date and time: 01/02/2025 23:07:05"),
        ]
    );
}

#[test]
fn clock_commands_report_a_missing_clock() {
    let mut out = Effects::new();
    assert_eq!(time_command(vec![], None, &mut out), 2);
    assert_eq!(date_command(vec![], None, &mut out), 2);
    assert_eq!(datetime_command(vec![], None, &mut out), 2);
    let line = say("Error: RTC not initialized");
    assert_eq!(out.list, vec![line.clone(), line.clone(), line]);
}

#[test]
fn crasher_fails_fatally() {
    let mut out = Effects::new();
    crasher(vec![], &mut out);
    assert_eq!(
        out.list,
        vec![
            say("CRASHING...\n\n"),
            Effect::Crash("Invoked by THE CRASHER >:)".to_string()),
        ]
    );
}

#[test]
fn run_calls_the_handler_it_is_given() {
    let mut log = HistoryLog::new();
    log.record("cc".to_string());
    let cases: Vec<(Handler, Vec<&str>, Option<i32>)> = vec![
        (Handler::Clrs, vec![], Some(1)),
        (Handler::Help, vec![], Some(0)),
        (Handler::Test, vec![], Some(2)),
        (Handler::Cc, vec![], Some(0)),
        (Handler::Document, vec![], Some(4)),
        (Handler::Document, vec!["nosuchcmd"], Some(3)),
        (Handler::Document, vec!["help"], Some(0)),
        (Handler::Chcolor, vec!["red"], Some(4)),
        (Handler::Chcolor, vec!["red", "white"], Some(0)),
        (Handler::CmdHist, vec![], Some(0)),
        (Handler::Shutdown, vec![], Some(0)),
        (Handler::Reboot, vec![], Some(0)),
        (Handler::Time, vec![], Some(2)),
        (Handler::Date, vec![], Some(2)),
        (Handler::Datetime, vec![], Some(2)),
        (Handler::Crasher, vec![], None),
    ];
    for (handler, args, code) in cases {
        let mut out = Effects::new();
        assert_eq!(run(handler, args, &log, None, false, &mut out), code);
    }
    let mut out = Effects::new();
    assert_eq!(run(Handler::CmdHist, vec![], &log, None, false, &mut out), Some(0));
    assert_eq!(out.list, vec![say("cc")]);
    let mut out = Effects::new();
    assert_eq!(run(Handler::Time, vec![], &log, Some(reading()), false, &mut out), Some(0));
    assert_eq!(out.list, vec![say("Current time: 23:07:05")]);
}
