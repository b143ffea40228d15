//! What the shell asks the machine to do.
//!
//! The shell never drives a device itself.  Every function that would print,
//! clear the screen or touch a port appends an [`Effect`] to an [`Effects`]
//! list instead, and the caller carries the list out in order.

use vstd::prelude::*;
use crate::color::Color;

verus! {

/// One thing for the machine to do.
#[derive(Debug, Clone, PartialEq, Eq)]
pub enum Effect {
    /// Print the text in the display's current colours.
    Print(String),
    /// Print the text in the given foreground and background colours.
    PrintColored(String, Color, Color),
    /// Blank the display.
    ClearScreen,
    /// Make the given foreground and background the display's current colours.
    ChangeColor(Color, Color),
    /// Empty the keyboard's line buffer.
    ClearBuffer,
    /// Write a byte to an I/O port.
    PortWrite8 { port: u16, byte: u8 },
    /// Write a 16-bit word to an I/O port.
    PortWrite16 { port: u16, word: u16 },
    /// Read a byte from the port until none of the bits of `mask` is set in it,
    /// giving up after `limit` reads.
    PortPoll { port: u16, mask: u8, limit: u32 },
    /// Idle for the given number of no-op instructions.
    Delay(u32),
    /// Fail fatally with the given message.
    Crash(String),
    /// Stop the processor for good.
    Halt,
}

/// An [`Effect`] with its text as a sequence of characters.
pub enum EffectView {
    Print(Seq<char>),
    PrintColored(Seq<char>, Color, Color),
    ClearScreen,
    ChangeColor(Color, Color),
    ClearBuffer,
    PortWrite8 { port: u16, byte: u8 },
    PortWrite16 { port: u16, word: u16 },
    PortPoll { port: u16, mask: u8, limit: u32 },
    Delay(u32),
    Crash(Seq<char>),
    Halt,
}

impl View for Effect {
    type V = EffectView;

    open spec fn view(&self) -> EffectView {
        match *self {
            Effect::Print(text) => EffectView::Print(text@),
            Effect::PrintColored(text, fg, bg) => EffectView::PrintColored(text@, fg, bg),
            Effect::ClearScreen => EffectView::ClearScreen,
            Effect::ChangeColor(fg, bg) => EffectView::ChangeColor(fg, bg),
            Effect::ClearBuffer => EffectView::ClearBuffer,
            Effect::PortWrite8 { port, byte } => EffectView::PortWrite8 { port, byte },
            Effect::PortWrite16 { port, word } => EffectView::PortWrite16 { port, word },
            Effect::PortPoll { port, mask, limit } => EffectView::PortPoll { port, mask, limit },
            Effect::Delay(cycles) => EffectView::Delay(cycles),
            Effect::Crash(message) => EffectView::Crash(message@),
            Effect::Halt => EffectView::Halt,
        }
    }
}

/// The text of a line: the given characters and a newline after them.
pub open spec fn line(text: Seq<char>) -> Seq<char> {
    text.push('\n')
}

/// Whether a poll of a port is over: none of the bits of `mask` is set in the
/// byte that was read.
pub fn poll_done(value: u8, mask: u8) -> (done: bool)
    ensures
        done == (value & mask == 0),
{
    value & mask == 0
}

/// An ordered list of effects, oldest first.
pub struct Effects {
    pub list: Vec<Effect>,
}

impl View for Effects {
    type V = Seq<EffectView>;

    open spec fn view(&self) -> Seq<EffectView> {
        self.list@.map_values(|e: Effect| e@)
    }
}

impl Effects {
    /// A list with nothing in it.
    pub fn new() -> (out: Effects)
        ensures
            out@ == Seq::<EffectView>::empty(),
    {
        let out = Effects { list: Vec::new() };
        assert(out@ =~= Seq::<EffectView>::empty());
        out
    }

    /// Appends one effect.
    pub fn push(&mut self, effect: Effect)
        ensures
            final(self)@ == old(self)@.push(effect@),
    {
        self.list.push(effect);
        assert(self@ =~= old(self)@.push(effect@));
    }

    /// Appends a print of `text` in the current colours.
    pub fn print(&mut self, text: String)
        ensures
            final(self)@ == old(self)@.push(EffectView::Print(text@)),
    {
        self.push(Effect::Print(text));
    }

    /// Appends a print of `text` followed by a newline, in the current colours.
    pub fn println(&mut self, text: String)
        ensures
            final(self)@ == old(self)@.push(EffectView::Print(line(text@))),
    {
        let ghost given = text@;
        let mut text = text;
        proof {
            reveal_strlit("\n");
        }
        text.append("\n");
        assert(text@ =~= line(given));
        self.push(Effect::Print(text));
    }

    /// Appends a print of `text` in the colours `fg` on `bg`.
    pub fn print_colored(&mut self, text: String, fg: Color, bg: Color)
        ensures
            final(self)@ == old(self)@.push(EffectView::PrintColored(text@, fg, bg)),
    {
        self.push(Effect::PrintColored(text, fg, bg));
    }

    /// How many effects the list holds.
    pub fn len(&self) -> (n: usize)
        ensures
            n == self@.len(),
    {
        self.list.len()
    }
}

} // verus!
