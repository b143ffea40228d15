//! The commands themselves.
//!
//! A handler takes the arguments of the command line and what else it needs
//! to know, appends what it wants done to a list of effects, and returns its
//! code: 0 for success, 1 when it has rendered everything itself, 2 for a
//! general error, 3 for a critical error, 4 for a user error.

use vstd::prelude::*;
use vstd::string::*;
use crate::color::color_from_argument;
use crate::color::color_of_argument;
use crate::color::Color;
use crate::effect::line;
use crate::effect::EffectView;
use crate::effect::Effect;
use crate::effect::Effects;
use crate::history::lines_of;
use crate::history::HistoryLog;
use crate::registry::command_list;
use crate::registry::commands_of;
use crate::registry::lookup;
use crate::registry::registry;
use crate::registry::resolved;
use crate::registry::CommandView;
use crate::registry::Handler;
use crate::rtc::date_text;
use crate::rtc::full_text;
use crate::rtc::time_text;
use crate::rtc::DateTime;
use crate::text::strip_newlines;
use crate::text::strs_of;
use crate::text::without_newlines;

verus! {

/// The first line of the help screen.
pub const HELP_HEADER: &'static str = "HighlightOS Shell\n\n  List of available commands:";

/// What `test` says.
pub const TEST_TEXT: &'static str =
    "hello. this is a test command. it's life goal is to always return 2.";

/// The licence notice that `cc` prints.
pub const LICENSE_TEXT: &'static str =
    "Copyright (C) 2025 Adam Perkowski\n\n    This program is free software: you can redistribute it and/or modify\n    it under the terms of the GNU General Public License as published by\n    the Free Software Foundation,version 3 of the License.\n\n    This program is distributed in the hope that it will be useful,\n    but WITHOUT ANY WARRANTY; without even the implied warranty of\n    MERCHANTABILITY or FITNESS FOR A PARTICULAR PURPOSE.  See the\n    GNU General Public License for more details.\n\n    You should have received a copy of the GNU General Public License\n    along with this program.  If not, see https://www.gnu.org/licenses .";

/// What `chcolor` says when it does not get exactly two arguments.
pub const CHCOLOR_USAGE: &'static str =
    "Specify both foreground and background color.\nExample usage: chcolor red white\n";

/// The port of the keyboard controller's status and command register.
pub const KEYBOARD_CONTROLLER: u16 = 0x64;

/// The status bit of the keyboard controller that is set while its input
/// buffer is full.
pub const INPUT_BUFFER_FULL: u8 = 0x02;

/// The command that makes the keyboard controller pulse the reset line.
pub const PULSE_RESET: u8 = 0xFE;

/// How often `reboot` reads the keyboard controller's status at most before
/// it sends the reset command anyway.
pub const REBOOT_POLL_LIMIT: u32 = 10000;

/// How long `reboot` waits for the reset to take effect, in no-op
/// instructions.
pub const REBOOT_DELAY: u32 = 1000000;

/// What running a command comes to.
pub struct Outcome {
    /// The effects of the run, in order.
    pub effects: Seq<EffectView>,
    /// The code the command returned; `None` when it failed fatally and
    /// returned nothing.
    pub code: Option<i32>,
}

/// A print of `text` and a newline in the current colours.
pub open spec fn say(text: Seq<char>) -> EffectView {
    EffectView::Print(line(text))
}

/// A print of `text` in light red on black, the colours of complaints.
pub open spec fn complain(text: Seq<char>) -> EffectView {
    EffectView::PrintColored(text, Color::LightRed, Color::Black)
}

/// `clrs` clears the display and reports that it rendered everything itself.
pub open spec fn clrs_outcome() -> Outcome {
    Outcome { effects: seq![EffectView::ClearScreen], code: Some(1) }
}

/// The line of the help screen for one command.
pub open spec fn help_entry(c: CommandView) -> Seq<char> {
    ". "@ + c.name + " "@ + c.args + "  >>  "@ + c.doc
}

/// The lines of the help screen for a list of commands, in the list's order.
pub open spec fn help_lines(list: Seq<CommandView>) -> Seq<EffectView> {
    list.map_values(|c: CommandView| say(help_entry(c)))
}

/// `help` prints a header and one line for every registered command, in
/// registration order.
pub open spec fn help_outcome(debug: bool) -> Outcome {
    Outcome { effects: seq![say(HELP_HEADER@)] + help_lines(registry(debug)), code: Some(0) }
}

/// `test` prints its greeting and always returns 2.
pub open spec fn test_outcome() -> Outcome {
    Outcome { effects: seq![say(TEST_TEXT@)], code: Some(2) }
}

/// `cc` prints the licence notice.
pub open spec fn cc_outcome() -> Outcome {
    Outcome { effects: seq![say(LICENSE_TEXT@)], code: Some(0) }
}

/// `getdoc` prints the name and the documentation of the command that its
/// first argument names.  Without an argument it complains and returns 4; for
/// a name that is not registered it complains and returns 3.  Newline
/// characters in the argument do not count.
pub open spec fn document_outcome(args: Seq<Seq<char>>, debug: bool) -> Outcome {
    if args.len() == 0 {
        Outcome { effects: seq![complain("No command specified.\n"@)], code: Some(4) }
    } else {
        match resolved(without_newlines(args[0]), debug) {
            Some(c) => Outcome { effects: seq![say(c.name + "  >>  "@ + c.doc)], code: Some(0) },
            None => Outcome { effects: seq![complain("Command not found.\n"@)], code: Some(3) },
        }
    }
}

/// What `chcolor` does about an argument that names no colour.
pub open spec fn color_not_found(arg: Seq<char>) -> Outcome {
    Outcome { effects: seq![complain("Color not found: "@ + arg + "\n"@)], code: Some(4) }
}

/// `chcolor` takes exactly two colour names, foreground then background.
/// With both known it changes the display's colours and clears it; with the
/// wrong number of arguments, or at the first name that is unknown, it
/// complains, changes nothing and returns 4.
pub open spec fn chcolor_outcome(args: Seq<Seq<char>>) -> Outcome {
    if args.len() != 2 {
        Outcome { effects: seq![complain(CHCOLOR_USAGE@)], code: Some(4) }
    } else {
        match color_of_argument(args[0]) {
            None => color_not_found(args[0]),
            Some(fg) => match color_of_argument(args[1]) {
                None => color_not_found(args[1]),
                Some(bg) => Outcome {
                    effects: seq![EffectView::ChangeColor(fg, bg), EffectView::ClearScreen],
                    code: Some(0),
                },
            },
        }
    }
}

/// One printed line for every entry, in the entries' order.
pub open spec fn history_lines(entries: Seq<Seq<char>>) -> Seq<EffectView> {
    entries.map_values(|entry: Seq<char>| say(entry))
}

/// `history` prints every recorded line, oldest first.
pub open spec fn cmd_hist_outcome(history: Seq<Seq<char>>) -> Outcome {
    Outcome { effects: history_lines(history), code: Some(0) }
}

/// `shutdown` tries the power-off ports of four machines in turn: ACPI and
/// QEMU at `0x604`, Bochs at `0xB004`, VirtualBox at `0x4004`.  Where none of
/// them takes effect the two closing lines are what the user gets to see.
pub open spec fn shutdown_outcome() -> Outcome {
    Outcome {
        effects: seq![
            say("Shutting down system..."@),
            EffectView::PortWrite16 { port: 0x604, word: 0x2000 },
            EffectView::PortWrite16 { port: 0x604, word: 0x2000 },
            EffectView::PortWrite16 { port: 0xB004, word: 0x2000 },
            EffectView::PortWrite16 { port: 0x4004, word: 0x3400 },
            say("Could not shutdown system via hardware."@),
            say("On real systems, this would power off the machine."@),
        ],
        code: Some(0),
    }
}

/// `reboot` waits for the keyboard controller's input buffer to empty, which
/// it gives up after a fixed number of reads, has the controller pulse the
/// reset line, and idles a while.  Where that does not take effect the two
/// closing lines are what the user gets to see.
pub open spec fn reboot_outcome() -> Outcome {
    Outcome {
        effects: seq![
            say("Rebooting system..."@),
            EffectView::PortPoll {
                port: KEYBOARD_CONTROLLER,
                mask: INPUT_BUFFER_FULL,
                limit: REBOOT_POLL_LIMIT,
            },
            EffectView::PortWrite8 { port: KEYBOARD_CONTROLLER, byte: PULSE_RESET },
            EffectView::Delay(REBOOT_DELAY),
            say("Could not reboot system via hardware."@),
            say("On real systems, this would restart the machine."@),
        ],
        code: Some(0),
    }
}

/// What the clock commands do without a clock.
pub open spec fn clock_missing() -> Outcome {
    Outcome { effects: seq![say("Error: RTC not initialized"@)], code: Some(2) }
}

/// `time` prints the time of the clock's reading.
pub open spec fn time_outcome(clock: Option<DateTime>) -> Outcome {
    match clock {
        Some(t) => Outcome { effects: seq![say("Current time: "@ + time_text(t))], code: Some(0) },
        None => clock_missing(),
    }
}

/// `date` prints the date of the clock's reading.
pub open spec fn date_outcome(clock: Option<DateTime>) -> Outcome {
    match clock {
        Some(t) => Outcome { effects: seq![say("Current date: "@ + date_text(t))], code: Some(0) },
        None => clock_missing(),
    }
}

/// `datetime` prints the date and the time of the clock's reading.
pub open spec fn datetime_outcome(clock: Option<DateTime>) -> Outcome {
    match clock {
        Some(t) => Outcome { effects: seq![say("Date and time: "@ + full_text(t))], code: Some(0) },
        None => clock_missing(),
    }
}

/// `crash_kernel` announces itself and fails fatally.  It returns no code.
pub open spec fn crasher_outcome() -> Outcome {
    Outcome {
        effects: seq![
            say("CRASHING...\n\n"@),
            EffectView::Crash("Invoked by THE CRASHER >:)"@),
        ],
        code: None,
    }
}

/// What running `handler` comes to: with the arguments `args`, the recorded
/// history, the clock's reading if there is a clock, and in a build that is a
/// debug build or not.
pub open spec fn outcome_of(
    handler: Handler,
    args: Seq<Seq<char>>,
    history: Seq<Seq<char>>,
    clock: Option<DateTime>,
    debug: bool,
) -> Outcome {
    match handler {
        Handler::Clrs => clrs_outcome(),
        Handler::Help => help_outcome(debug),
        Handler::Test => test_outcome(),
        Handler::Cc => cc_outcome(),
        Handler::Document => document_outcome(args, debug),
        Handler::Chcolor => chcolor_outcome(args),
        Handler::CmdHist => cmd_hist_outcome(history),
        Handler::Shutdown => shutdown_outcome(),
        Handler::Reboot => reboot_outcome(),
        Handler::Time => time_outcome(clock),
        Handler::Date => date_outcome(clock),
        Handler::Datetime => datetime_outcome(clock),
        Handler::Crasher => crasher_outcome(),
    }
}

/// Clears the display.
pub fn clrs(_args: Vec<&str>, out: &mut Effects) -> (code: i32)
    ensures
        Some(code) == clrs_outcome().code,
        final(out)@ == old(out)@ + clrs_outcome().effects,
{
    out.push(Effect::ClearScreen);
    assert(out@ =~= old(out)@ + clrs_outcome().effects);
    1
}

/// Lists the registered commands.
pub fn help(_args: Vec<&str>, debug: bool, out: &mut Effects) -> (code: i32)
    ensures
        Some(code) == help_outcome(debug).code,
        final(out)@ == old(out)@ + help_outcome(debug).effects,
{
    let ghost base = out@;
    out.println(String::from_str(HELP_HEADER));
    let list = command_list(debug);
    let mut i: usize = 0;
    assert(help_lines(registry(debug).take(0)) =~= Seq::<EffectView>::empty());
    assert(out@ =~= base + (seq![say(HELP_HEADER@)] + help_lines(registry(debug).take(0))));
    while i < list.len()
        invariant
            i <= list.len(),
            commands_of(list@) == registry(debug),
            out@ == base + (seq![say(HELP_HEADER@)] + help_lines(registry(debug).take(i as int))),
        decreases list.len() - i,
    {
        let c = list[i];
        assert(c@ == registry(debug)[i as int]);
        let mut entry = String::from_str(". ");
        entry.append(c.name);
        entry.append(" ");
        entry.append(c.args);
        entry.append("  >>  ");
        entry.append(c.doc);
        out.println(entry);
        assert(help_lines(registry(debug).take(i + 1)) =~= help_lines(
            registry(debug).take(i as int),
        ).push(say(help_entry(c@))));
        assert(out@ =~= base + (seq![say(HELP_HEADER@)] + help_lines(
            registry(debug).take(i + 1),
        )));
        i = i + 1;
    }
    assert(registry(debug).take(i as int) =~= registry(debug));
    0
}

/// A diagnostic that does nothing but return 2.
pub fn test(_args: Vec<&str>, out: &mut Effects) -> (code: i32)
    ensures
        Some(code) == test_outcome().code,
        final(out)@ == old(out)@ + test_outcome().effects,
{
    out.println(String::from_str(TEST_TEXT));
    assert(out@ =~= old(out)@ + test_outcome().effects);
    2
}

/// Prints the licence notice.
pub fn cc(_args: Vec<&str>, out: &mut Effects) -> (code: i32)
    ensures
        Some(code) == cc_outcome().code,
        final(out)@ == old(out)@ + cc_outcome().effects,
{
    out.println(String::from_str(LICENSE_TEXT));
    assert(out@ =~= old(out)@ + cc_outcome().effects);
    0
}

/// Prints the documentation of the command that the first argument names.
pub fn document(args: Vec<&str>, debug: bool, out: &mut Effects) -> (code: i32)
    ensures
        Some(code) == document_outcome(strs_of(args@), debug).code,
        final(out)@ == old(out)@ + document_outcome(strs_of(args@), debug).effects,
{
    if args.len() > 0 {
        let wanted = strip_newlines(args[0]);
        assert(wanted@ == without_newlines(strs_of(args@)[0]));
        match lookup(wanted.as_str(), debug) {
            Some(command) => {
                let mut text = String::from_str(command.name);
                text.append("  >>  ");
                text.append(command.doc);
                out.println(text);
                assert(out@ =~= old(out)@ + document_outcome(strs_of(args@), debug).effects);
                0
            },
            None => {
                out.print_colored(
                    String::from_str("Command not found.\n"),
                    Color::LightRed,
                    Color::Black,
                );
                assert(out@ =~= old(out)@ + document_outcome(strs_of(args@), debug).effects);
                3
            },
        }
    } else {
        out.print_colored(String::from_str("No command specified.\n"), Color::LightRed, Color::Black);
        assert(out@ =~= old(out)@ + document_outcome(strs_of(args@), debug).effects);
        4
    }
}

/// Appends the complaint about an argument that names no colour.
fn complain_color_not_found(arg: &str, out: &mut Effects)
    ensures
        final(out)@ == old(out)@ + color_not_found(arg@).effects,
{
    let mut text = String::from_str("Color not found: ");
    text.append(arg);
    text.append("\n");
    out.print_colored(text, Color::LightRed, Color::Black);
    assert(out@ =~= old(out)@ + color_not_found(arg@).effects);
}

/// Changes the colours of the display.
pub fn chcolor(args: Vec<&str>, out: &mut Effects) -> (code: i32)
    ensures
        Some(code) == chcolor_outcome(strs_of(args@)).code,
        final(out)@ == old(out)@ + chcolor_outcome(strs_of(args@)).effects,
{
    if args.len() == 2 {
        assert(strs_of(args@)[0] == args@[0]@ && strs_of(args@)[1] == args@[1]@);
        match color_from_argument(args[0]) {
            None => {
                complain_color_not_found(args[0], out);
                4
            },
            Some(fg) => match color_from_argument(args[1]) {
                None => {
                    complain_color_not_found(args[1], out);
                    4
                },
                Some(bg) => {
                    out.push(Effect::ChangeColor(fg, bg));
                    out.push(Effect::ClearScreen);
                    assert(out@ =~= old(out)@ + chcolor_outcome(strs_of(args@)).effects);
                    0
                },
            },
        }
    } else {
        out.print_colored(String::from_str(CHCOLOR_USAGE), Color::LightRed, Color::Black);
        assert(out@ =~= old(out)@ + chcolor_outcome(strs_of(args@)).effects);
        4
    }
}

/// Prints the recorded lines, oldest first.
pub fn cmd_hist(_args: Vec<&str>, history: &HistoryLog, out: &mut Effects) -> (code: i32)
    ensures
        Some(code) == cmd_hist_outcome(history@).code,
        final(out)@ == old(out)@ + cmd_hist_outcome(history@).effects,
{
    let ghost base = out@;
    let lines = history.all();
    let mut i: usize = 0;
    assert(out@ =~= base + history_lines(history@.take(0)));
    while i < lines.len()
        invariant
            i <= lines.len(),
            lines_of(lines@) == history@,
            out@ == base + history_lines(history@.take(i as int)),
        decreases lines.len() - i,
    {
        let entry = lines[i].clone();
        assert(entry@ == history@[i as int]);
        out.println(entry);
        assert(history_lines(history@.take(i + 1)) =~= history_lines(
            history@.take(i as int),
        ).push(say(history@[i as int])));
        assert(out@ =~= base + history_lines(history@.take(i + 1)));
        i = i + 1;
    }
    assert(history@.take(i as int) =~= history@);
    0
}

/// Tries to power the machine off.
pub fn shutdown_command(_args: Vec<&str>, out: &mut Effects) -> (code: i32)
    ensures
        Some(code) == shutdown_outcome().code,
        final(out)@ == old(out)@ + shutdown_outcome().effects,
{
    out.println(String::from_str("Shutting down system..."));
    out.push(Effect::PortWrite16 { port: 0x604, word: 0x2000 });
    out.push(Effect::PortWrite16 { port: 0x604, word: 0x2000 });
    out.push(Effect::PortWrite16 { port: 0xB004, word: 0x2000 });
    out.push(Effect::PortWrite16 { port: 0x4004, word: 0x3400 });
    out.println(String::from_str("Could not shutdown system via hardware."));
    out.println(String::from_str("On real systems, this would power off the machine."));
    assert(out@ =~= old(out)@ + shutdown_outcome().effects);
    0
}

/// Tries to restart the machine.
pub fn reboot_command(_args: Vec<&str>, out: &mut Effects) -> (code: i32)
    ensures
        Some(code) == reboot_outcome().code,
        final(out)@ == old(out)@ + reboot_outcome().effects,
{
    out.println(String::from_str("Rebooting system..."));
    out.push(
        Effect::PortPoll {
            port: KEYBOARD_CONTROLLER,
            mask: INPUT_BUFFER_FULL,
            limit: REBOOT_POLL_LIMIT,
        },
    );
    out.push(Effect::PortWrite8 { port: KEYBOARD_CONTROLLER, byte: PULSE_RESET });
    out.push(Effect::Delay(REBOOT_DELAY));
    out.println(String::from_str("Could not reboot system via hardware."));
    out.println(String::from_str("On real systems, this would restart the machine."));
    assert(out@ =~= old(out)@ + reboot_outcome().effects);
    0
}

/// Appends the report that there is no clock.
fn report_clock_missing(out: &mut Effects) -> (code: i32)
    ensures
        Some(code) == clock_missing().code,
        final(out)@ == old(out)@ + clock_missing().effects,
{
    out.println(String::from_str("Error: RTC not initialized"));
    assert(out@ =~= old(out)@ + clock_missing().effects);
    2
}

/// Prints the time of day.
pub fn time_command(_args: Vec<&str>, clock: Option<DateTime>, out: &mut Effects) -> (code: i32)
    ensures
        Some(code) == time_outcome(clock).code,
        final(out)@ == old(out)@ + time_outcome(clock).effects,
{
    match clock {
        Some(datetime) => {
            let mut text = String::from_str("Current time: ");
            text.append(datetime.format_time().as_str());
            out.println(text);
            assert(out@ =~= old(out)@ + time_outcome(clock).effects);
            0
        },
        None => report_clock_missing(out),
    }
}

/// Prints the date.
pub fn date_command(_args: Vec<&str>, clock: Option<DateTime>, out: &mut Effects) -> (code: i32)
    ensures
        Some(code) == date_outcome(clock).code,
        final(out)@ == old(out)@ + date_outcome(clock).effects,
{
    match clock {
        Some(datetime) => {
            let mut text = String::from_str("Current date: ");
            text.append(datetime.format_date().as_str());
            out.println(text);
            assert(out@ =~= old(out)@ + date_outcome(clock).effects);
            0
        },
        None => report_clock_missing(out),
    }
}

/// Prints the date and the time.
pub fn datetime_command(_args: Vec<&str>, clock: Option<DateTime>, out: &mut Effects) -> (code:
    i32)
    ensures
        Some(code) == datetime_outcome(clock).code,
        final(out)@ == old(out)@ + datetime_outcome(clock).effects,
{
    match clock {
        Some(datetime) => {
            let mut text = String::from_str("Date and time: ");
            text.append(datetime.format_full().as_str());
            out.println(text);
            assert(out@ =~= old(out)@ + datetime_outcome(clock).effects);
            0
        },
        None => report_clock_missing(out),
    }
}

/// Brings the system down on purpose.
pub fn crasher(_args: Vec<&str>, out: &mut Effects)
    ensures
        final(out)@ == old(out)@ + crasher_outcome().effects,
{
    out.println(String::from_str("CRASHING...\n\n"));
    out.push(Effect::Crash(String::from_str("Invoked by THE CRASHER >:)")));
    assert(out@ =~= old(out)@ + crasher_outcome().effects);
}

/// Runs `handler` and returns its code, or `None` where it failed fatally.
pub fn run(
    handler: Handler,
    args: Vec<&str>,
    history: &HistoryLog,
    clock: Option<DateTime>,
    debug: bool,
    out: &mut Effects,
) -> (code: Option<i32>)
    ensures
        code == outcome_of(handler, strs_of(args@), history@, clock, debug).code,
        final(out)@ == old(out)@ + outcome_of(
            handler,
            strs_of(args@),
            history@,
            clock,
            debug,
        ).effects,
{
    match handler {
        Handler::Clrs => Some(clrs(args, out)),
        Handler::Help => Some(help(args, debug, out)),
        Handler::Test => Some(test(args, out)),
        Handler::Cc => Some(cc(args, out)),
        Handler::Document => Some(document(args, debug, out)),
        Handler::Chcolor => Some(chcolor(args, out)),
        Handler::CmdHist => Some(cmd_hist(args, history, out)),
        Handler::Shutdown => Some(shutdown_command(args, out)),
        Handler::Reboot => Some(reboot_command(args, out)),
        Handler::Time => Some(time_command(args, clock, out)),
        Handler::Date => Some(date_command(args, clock, out)),
        Handler::Datetime => Some(datetime_command(args, clock, out)),
        Handler::Crasher => {
            crasher(args, out);
            None
        },
    }
}

} // verus!
