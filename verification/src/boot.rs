//! Startup and the end of everything: the banner, the first prompt, the
//! colour bar, and the report of a fatal failure.

use vstd::prelude::*;
use vstd::string::*;
use crate::acpi::AcpiController;
use crate::cmd::say;
use crate::color::Color;
use crate::effect::Effect;
use crate::effect::EffectView;
use crate::effect::Effects;
use crate::rtc::Rtc;
use crate::rtc::RtcState;
use crate::shell::Shell;

verus! {

/// One stripe of the colour bar: two letters in one colour on itself.
pub open spec fn stripe(color: Color) -> EffectView {
    EffectView::PrintColored("aA"@, color, color)
}

/// The colour bar: after a line break, eleven stripes.
pub open spec fn color_bar() -> Seq<EffectView> {
    seq![
        EffectView::PrintColored("\naA"@, Color::Blue, Color::Blue),
        stripe(Color::Pink),
        stripe(Color::Red),
        stripe(Color::Green),
        stripe(Color::Yellow),
        stripe(Color::LightBlue),
        stripe(Color::Magenta),
        stripe(Color::Cyan),
        stripe(Color::Brown),
        stripe(Color::Blue),
        stripe(Color::Blue),
    ]
}

/// The line that names the system and its version.  A debug build says so; a
/// release build centres the name.
pub open spec fn banner(version: Seq<char>, debug: bool) -> Seq<char> {
    if debug {
        "\nHighlightOS v"@ + version + " *DEBUG*"@
    } else {
        "\n                 HighlightOS v"@ + version
    }
}

/// What startup shows: in a debug build a note that it has begun, then the
/// banner in black on yellow, the pointer to the documentation in cyan on
/// black, and the first prompt.
pub open spec fn startup_effects(version: Seq<char>, debug: bool) -> Seq<EffectView> {
    let shown = seq![
        EffectView::PrintColored(banner(version, debug), Color::Black, Color::Yellow),
        EffectView::PrintColored(
            "\n Documentation: https://os.adamperkowski.dev"@,
            Color::Cyan,
            Color::Black,
        ),
        EffectView::Print("\n\nhls > "@),
    ];
    if debug {
        seq![say("Initializing...\n"@)] + shown
    } else {
        shown
    }
}

/// What a fatal failure leaves on the display, in red on black, before the
/// processor is stopped for good.
pub open spec fn crash_effects(info: Seq<char>) -> Seq<EffectView> {
    seq![
        EffectView::PrintColored("KERNEL CRASHED\n"@ + info + "\n"@, Color::Red, Color::Black),
        EffectView::Halt,
    ]
}

/// Appends one stripe of the colour bar.
fn push_stripe(out: &mut Effects, color: Color)
    ensures
        final(out)@ == old(out)@.push(stripe(color)),
{
    out.print_colored(String::from_str("aA"), color, color);
}

/// Paints the colour bar.
pub fn started_colors() -> (out: Effects)
    ensures
        out@ == color_bar(),
{
    let mut out = Effects::new();
    out.print_colored(String::from_str("\naA"), Color::Blue, Color::Blue);
    push_stripe(&mut out, Color::Pink);
    push_stripe(&mut out, Color::Red);
    push_stripe(&mut out, Color::Green);
    push_stripe(&mut out, Color::Yellow);
    push_stripe(&mut out, Color::LightBlue);
    push_stripe(&mut out, Color::Magenta);
    push_stripe(&mut out, Color::Cyan);
    push_stripe(&mut out, Color::Brown);
    push_stripe(&mut out, Color::Blue);
    push_stripe(&mut out, Color::Blue);
    assert(out@ =~= color_bar());
    out
}

/// Brings the shell up: a shell with an empty history and both drivers
/// installed, and what startup shows.  The memory has to be set up before.
pub fn init_kernel(version: &str, debug: bool) -> (boot: (Shell, Effects))
    ensures
        boot.0.history@ == Seq::<Seq<char>>::empty(),
        boot.0.history.cursor_position() == 0,
        boot.0.debug == debug,
        boot.0.acpi is Some,
        boot.0.rtc matches Some(rtc) && rtc@ == RtcState::idle(),
        boot.1@ == startup_effects(version@, debug),
{
    let mut out = Effects::new();
    let mut shell = Shell::new(debug);
    shell.acpi = Some(AcpiController::new());
    shell.rtc = Some(Rtc::new());
    let mut title: String;
    if debug {
        out.println(String::from_str("Initializing...\n"));
        title = String::from_str("\nHighlightOS v");
        title.append(version);
        title.append(" *DEBUG*");
    } else {
        title = String::from_str("\n                 HighlightOS v");
        title.append(version);
    }
    out.print_colored(title, Color::Black, Color::Yellow);
    out.print_colored(
        String::from_str("\n Documentation: https://os.adamperkowski.dev"),
        Color::Cyan,
        Color::Black,
    );
    out.print(String::from_str("\n\nhls > "));
    assert(out@ =~= startup_effects(version@, debug));
    (shell, out)
}

/// What to do about a fatal failure that `info` describes: show it and halt.
pub fn crash_report(info: &str) -> (out: Effects)
    ensures
        out@ == crash_effects(info@),
{
    let mut out = Effects::new();
    let mut text = String::from_str("KERNEL CRASHED\n");
    text.append(info);
    text.append("\n");
    out.print_colored(text, Color::Red, Color::Black);
    out.push(Effect::Halt);
    assert(out@ =~= crash_effects(info@));
    out
}

} // verus!
