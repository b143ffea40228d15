//! The dispatcher: from the keyboard's line buffer to a command, its run and
//! the report of its code.
//!
//! The shell waits for a line that ends in a newline.  Such a line is taken
//! off the buffer, split at its spaces into a command name and arguments,
//! resolved against the registry and run; the code that the command returns
//! is reported, the line goes into the history, and the prompt is shown
//! again.

use vstd::prelude::*;
use vstd::string::*;
use crate::acpi::AcpiController;
use crate::cmd::complain;
use crate::cmd::outcome_of;
use crate::cmd::run;
use crate::cmd::say;
use crate::color::Color;
use crate::effect::Effect;
use crate::effect::EffectView;
use crate::effect::Effects;
use crate::history::lemma_recorded_keeps_order;
use crate::history::no_adjacent_repeats;
use crate::history::recorded;
use crate::history::HistoryLog;
use crate::registry::lemma_lookup_finds_every_command;
use crate::registry::lookup;
use crate::registry::registry;
use crate::registry::resolved;
use crate::registry::Handler;
use crate::rtc::DateTime;
use crate::rtc::Rtc;
use crate::status::classify;
use crate::status::color_of;
use crate::status::is_classified;
use crate::status::message_of;
use crate::status::SELF_RENDERED;
use crate::text::newline;
use crate::text::push_signed_decimal;
use crate::text::signed_decimal;
use crate::text::split_on_spaces;
use crate::text::split_spaces;
use crate::text::strs_of;

verus! {

/// The prompt.
pub const PROMPT: &'static str = "hls > ";

/// Whether the line buffer holds a completed line: one that ends in a
/// newline.
pub open spec fn is_complete(input: Seq<char>) -> bool {
    input.len() > 0 && input.last() == newline()
}

/// The line that was entered: the buffer without the newline at its end.
pub open spec fn entered_line(input: Seq<char>) -> Seq<char>
    recommends
        is_complete(input),
{
    input.drop_last()
}

/// The command name of a line: its first token.
pub open spec fn command_name(line: Seq<char>) -> Seq<char> {
    split_spaces(line)[0]
}

/// The arguments of a line: its tokens after the first.
pub open spec fn arguments(line: Seq<char>) -> Seq<Seq<char>> {
    split_spaces(line).skip(1)
}

/// The reading that the clock commands get to see: the one supplied, if the
/// shell has a clock driver at all.
pub open spec fn clock_seen(has_rtc: bool, reading: Option<DateTime>) -> Option<DateTime> {
    if has_rtc {
        reading
    } else {
        None
    }
}

/// The report of a command's return code.
///
/// Code 1 means that the command rendered everything itself: nothing is
/// reported.  A code with an entry is reported as the command's name and
/// then, in the entry's colour, the code, a colon and the entry's message.
/// Any other code is reported plainly, after the command's name.
pub open spec fn status_report(name: Seq<char>, code: i32) -> Seq<EffectView> {
    if code == SELF_RENDERED {
        Seq::empty()
    } else if is_classified(code as int) {
        seq![
            say("\n > "@ + name),
            EffectView::PrintColored(
                signed_decimal(code as int) + ":"@ + message_of(code as int) + "\n\n"@,
                color_of(code as int),
                Color::Black,
            ),
        ]
    } else {
        seq![say("\n > "@ + name + "\nreturned : "@ + signed_decimal(code as int) + "\n"@)]
    }
}

/// The complaint about a line whose first token names no command.  It quotes
/// the buffer as it was received.
pub open spec fn not_found_report(input: Seq<char>) -> EffectView {
    complain("\n > hls: command not found: "@ + input + "\n"@)
}

/// The prompt, printed in the current colours.
pub open spec fn prompt() -> EffectView {
    EffectView::Print(PROMPT@)
}

/// Whether the entered line ends the session: it names a command that fails
/// fatally and so returns no code.
pub open spec fn is_fatal(line: Seq<char>, debug: bool) -> bool {
    resolved(command_name(line), debug) matches Some(c) && c.fun == Handler::Crasher
}

/// What the shell does about an entered line that is not empty.
///
/// The first token is resolved against the registry.  An unknown name is
/// complained about.  A known command runs on the remaining tokens, after a
/// line break; if it returns, the report of its code follows.
pub open spec fn dispatch_effects(
    line: Seq<char>,
    input: Seq<char>,
    history: Seq<Seq<char>>,
    clock: Option<DateTime>,
    debug: bool,
) -> Seq<EffectView> {
    match resolved(command_name(line), debug) {
        None => seq![not_found_report(input)],
        Some(c) => {
            let outcome = outcome_of(c.fun, arguments(line), history, clock, debug);
            let ran = seq![EffectView::Print("\n"@)] + outcome.effects;
            match outcome.code {
                None => ran,
                Some(code) => ran + status_report(command_name(line), code),
            }
        },
    }
}

/// Everything the shell has done once it has looked at the line buffer.
///
/// A buffer without a completed line is left alone.  A completed line is
/// taken off the buffer first.  If nothing was entered the prompt follows at
/// once.  Otherwise the line is dispatched, and the prompt ends the list,
/// unless the command failed fatally: then its effects are the last.
pub open spec fn poll_effects(
    input: Seq<char>,
    history: Seq<Seq<char>>,
    clock: Option<DateTime>,
    debug: bool,
) -> Seq<EffectView> {
    if !is_complete(input) {
        Seq::empty()
    } else {
        let line = entered_line(input);
        if line.len() == 0 {
            seq![EffectView::ClearBuffer, prompt()]
        } else if is_fatal(line, debug) {
            seq![EffectView::ClearBuffer] + dispatch_effects(line, input, history, clock, debug)
        } else {
            seq![EffectView::ClearBuffer] + dispatch_effects(line, input, history, clock, debug)
                + seq![prompt()]
        }
    }
}

/// The history once the shell has looked at the line buffer: a completed line
/// that is not empty is recorded, whether or not it named a command, unless
/// its command failed fatally.
pub open spec fn history_after(input: Seq<char>, history: Seq<Seq<char>>, debug: bool) -> Seq<
    Seq<char>,
> {
    if is_complete(input) && entered_line(input).len() > 0 && !is_fatal(
        entered_line(input),
        debug,
    ) {
        recorded(history, entered_line(input))
    } else {
        history
    }
}

/// The history after the shell has looked at each of `inputs` in turn.
pub open spec fn history_after_all(
    inputs: Seq<Seq<char>>,
    history: Seq<Seq<char>>,
    debug: bool,
) -> Seq<Seq<char>>
    decreases inputs.len(),
{
    if inputs.len() == 0 {
        history
    } else {
        history_after(inputs.last(), history_after_all(inputs.drop_last(), history, debug), debug)
    }
}

/// Only the crash command returns no code.
pub proof fn lemma_fatal_means_no_code(
    handler: Handler,
    args: Seq<Seq<char>>,
    history: Seq<Seq<char>>,
    clock: Option<DateTime>,
    debug: bool,
)
    ensures
        outcome_of(handler, args, history, clock, debug).code is None <==> handler
            == Handler::Crasher,
{
}

/// A line whose first token is the name of a registered command runs that
/// command's handler on the remaining tokens: what the shell does about the
/// line is a line break, the handler's effects and, if the handler returned,
/// the report of its code.
pub proof fn lemma_dispatch_invokes_handler(
    i: int,
    line: Seq<char>,
    input: Seq<char>,
    history: Seq<Seq<char>>,
    clock: Option<DateTime>,
    debug: bool,
)
    requires
        0 <= i < registry(debug).len(),
        command_name(line) == registry(debug)[i].name,
    ensures
        ({
            let c = registry(debug)[i];
            let outcome = outcome_of(c.fun, arguments(line), history, clock, debug);
            let ran = seq![EffectView::Print("\n"@)] + outcome.effects;
            dispatch_effects(line, input, history, clock, debug) == match outcome.code {
                None => ran,
                Some(code) => ran + status_report(c.name, code),
            }
        }),
{
    lemma_lookup_finds_every_command(debug, i);
}

/// A bare newline dispatches nothing and records nothing: the buffer is
/// cleared and the prompt is shown again.
pub proof fn lemma_empty_line(history: Seq<Seq<char>>, clock: Option<DateTime>, debug: bool)
    ensures
        poll_effects(seq![newline()], history, clock, debug) == seq![
            EffectView::ClearBuffer,
            prompt(),
        ],
        history_after(seq![newline()], history, debug) == history,
{
    assert(entered_line(seq![newline()]) =~= Seq::<char>::empty());
}

/// Whatever the line buffer holds each time the shell looks at it, a history
/// that began empty never holds two equal entries next to each other.
pub proof fn lemma_shell_history_never_repeats(inputs: Seq<Seq<char>>, debug: bool)
    ensures
        no_adjacent_repeats(history_after_all(inputs, Seq::empty(), debug)),
    decreases inputs.len(),
{
    if inputs.len() > 0 {
        lemma_shell_history_never_repeats(inputs.drop_last(), debug);
        let before = history_after_all(inputs.drop_last(), Seq::empty(), debug);
        lemma_recorded_keeps_order(before, entered_line(inputs.last()));
    }
}

/// No command empties the keyboard's line buffer: that is the shell's to do.
pub proof fn lemma_commands_leave_buffer(
    handler: Handler,
    args: Seq<Seq<char>>,
    history: Seq<Seq<char>>,
    clock: Option<DateTime>,
    debug: bool,
)
    ensures
        forall|i: int|
            0 <= i < outcome_of(handler, args, history, clock, debug).effects.len() ==> !(
            #[trigger] outcome_of(handler, args, history, clock, debug).effects[i]
                is ClearBuffer),
{
}

/// The line buffer is emptied exactly once for every completed line, and
/// before anything else is done about the line; while no line is complete it
/// is not emptied at all.
pub proof fn lemma_buffer_cleared_once(
    input: Seq<char>,
    history: Seq<Seq<char>>,
    clock: Option<DateTime>,
    debug: bool,
)
    ensures
        is_complete(input) ==> poll_effects(input, history, clock, debug).len() > 0
            && poll_effects(input, history, clock, debug)[0] is ClearBuffer,
        forall|i: int|
            0 <= i < poll_effects(input, history, clock, debug).len() && (#[trigger] poll_effects(
                input,
                history,
                clock,
                debug,
            )[i]) is ClearBuffer ==> i == 0 && is_complete(input),
{
    if is_complete(input) && entered_line(input).len() > 0 {
        let line = entered_line(input);
        match resolved(command_name(line), debug) {
            Some(c) => {
                lemma_commands_leave_buffer(c.fun, arguments(line), history, clock, debug);
            },
            None => {},
        }
    }
}

/// The state of the shell: the history of entered lines, the drivers that
/// startup installed, and whether this is a debug build, which has one
/// command more.
pub struct Shell {
    pub history: HistoryLog,
    pub rtc: Option<Rtc>,
    pub acpi: Option<AcpiController>,
    pub debug: bool,
}

/// Appends the report of the code that the command `name` returned.
pub fn report_status(name: &str, code: i32, out: &mut Effects)
    ensures
        final(out)@ == old(out)@ + status_report(name@, code),
{
    if code != SELF_RENDERED {
        match classify(code) {
            Some(entry) => {
                let mut head = String::from_str("\n > ");
                head.append(name);
                out.println(head);
                let mut text = String::new();
                push_signed_decimal(&mut text, code);
                text.append(":");
                text.append(entry.message);
                text.append("\n\n");
                assert(text@ =~= signed_decimal(code as int) + ":"@ + message_of(code as int)
                    + "\n\n"@);
                out.print_colored(text, entry.color, Color::Black);
            },
            None => {
                let mut text = String::from_str("\n > ");
                text.append(name);
                text.append("\nreturned : ");
                push_signed_decimal(&mut text, code);
                text.append("\n");
                out.println(text);
            },
        }
    }
    assert(out@ =~= old(out)@ + status_report(name@, code));
}

/// Resolves the entered line's first token and runs the command it names on
/// the remaining tokens, or complains that there is no such command.
/// `input` is the line buffer that `line` was taken from.  Tells whether the
/// shell goes on: it does not after a command that failed fatally.
pub fn dispatch(
    line: &str,
    input: &str,
    history: &HistoryLog,
    clock: Option<DateTime>,
    debug: bool,
    out: &mut Effects,
) -> (alive: bool)
    ensures
        alive == !is_fatal(line@, debug),
        final(out)@ == old(out)@ + dispatch_effects(line@, input@, history@, clock, debug),
{
    let mut tokens = split_on_spaces(line);
    assert(strs_of(tokens@)[0] == tokens@[0]@);
    match lookup(tokens[0], debug) {
        Some(command) => {
            let name = tokens.remove(0);
            assert(strs_of(tokens@) =~= arguments(line@));
            let ghost outcome = outcome_of(command.fun, arguments(line@), history@, clock, debug);
            proof {
                lemma_fatal_means_no_code(command.fun, arguments(line@), history@, clock, debug);
            }
            out.print(String::from_str("\n"));
            let code = run(command.fun, tokens, history, clock, debug, out);
            assert(out@ =~= old(out)@ + (seq![EffectView::Print("\n"@)] + outcome.effects));
            match code {
                Some(code) => {
                    report_status(name, code, out);
                    assert(out@ =~= old(out)@ + (seq![EffectView::Print("\n"@)] + outcome.effects
                        + status_report(name@, code)));
                    true
                },
                None => false,
            }
        },
        None => {
            let mut text = String::from_str("\n > hls: command not found: ");
            text.append(input);
            text.append("\n");
            out.print_colored(text, Color::LightRed, Color::Black);
            assert(out@ =~= old(out)@ + seq![not_found_report(input@)]);
            true
        },
    }
}

impl Shell {
    /// A shell with an empty history and no drivers yet.
    pub fn new(debug: bool) -> (shell: Shell)
        ensures
            shell.history@ == Seq::<Seq<char>>::empty(),
            shell.history.cursor_position() == 0,
            shell.rtc is None,
            shell.acpi is None,
            shell.debug == debug,
    {
        Shell { history: HistoryLog::new(), rtc: None, acpi: None, debug }
    }

    /// Whether the line buffer holds a completed line that asks for the
    /// clock, so that a reading has to be taken before [`Self::poll`] is
    /// called: the commands `time`, `date` and `datetime` do.
    pub fn needs_clock(&self, input: &str) -> (needed: bool)
        ensures
            needed == (is_complete(input@) && entered_line(input@).len() > 0 && (resolved(
                command_name(entered_line(input@)),
                self.debug,
            ) matches Some(c) && (c.fun == Handler::Time || c.fun == Handler::Date || c.fun
                == Handler::Datetime))),
    {
        let n = input.unicode_len();
        if n < 2 || input.get_char(n - 1) != '\n' {
            return false;
        }
        let line = input.substring_char(0, n - 1);
        assert(line@ =~= entered_line(input@));
        let tokens = split_on_spaces(line);
        assert(strs_of(tokens@)[0] == tokens@[0]@);
        match lookup(tokens[0], self.debug) {
            Some(command) => match command.fun {
                Handler::Time => true,
                Handler::Date => true,
                Handler::Datetime => true,
                _ => false,
            },
            None => false,
        }
    }

    /// Looks at the keyboard's line buffer and, if it holds a completed line,
    /// processes that line.
    ///
    /// `reading` is what the clock read for this line; it matters only to the
    /// clock commands, and only while the shell has a clock driver.
    ///
    /// With no completed line in the buffer nothing happens at all.
    /// Otherwise the history's cursor goes back to rest, and the effects and
    /// the new history are those of [`poll_effects`] and [`history_after`].
    pub fn poll(&mut self, input: &str, reading: Option<DateTime>) -> (out: Effects)
        ensures
            out@ == poll_effects(
                input@,
                old(self).history@,
                clock_seen(old(self).rtc is Some, reading),
                old(self).debug,
            ),
            final(self).history@ == history_after(input@, old(self).history@, old(self).debug),
            no_adjacent_repeats(final(self).history@),
            final(self).history.cursor_position() == if is_complete(input@) {
                0
            } else {
                old(self).history.cursor_position()
            },
            final(self).rtc == old(self).rtc,
            final(self).acpi == old(self).acpi,
            final(self).debug == old(self).debug,
    {
        let ghost history = self.history@;
        let debug = self.debug;
        let clock = if self.rtc.is_some() {
            reading
        } else {
            None
        };
        let mut out = Effects::new();
        // The log reports here that it holds no adjacent repeats.
        let _ = self.history.len();
        let n = input.unicode_len();
        if n == 0 || input.get_char(n - 1) != '\n' {
            return out;
        }
        out.push(Effect::ClearBuffer);
        self.history.reset_cursor();
        let line = input.substring_char(0, n - 1);
        assert(line@ =~= entered_line(input@));
        if n > 1 {
            let alive = dispatch(line, input, &self.history, clock, debug, &mut out);
            if !alive {
                assert(out@ =~= poll_effects(input@, history, clock, debug));
                return out;
            }
            self.history.record(String::from_str(line));
        }
        out.print(String::from_str(PROMPT));
        assert(out@ =~= poll_effects(input@, history, clock, debug));
        out
    }
}

} // verus!
