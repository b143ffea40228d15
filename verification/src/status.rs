//! What the codes mean that commands return.

use vstd::prelude::*;
use crate::color::Color;

verus! {

/// The code by which a command says that it has rendered everything itself, so
/// that no status line is to follow.
pub const SELF_RENDERED: i32 = 1;

/// The meaning of one return code: the message to show for it and the colour
/// to show it in.
#[derive(Debug, Clone, Copy)]
pub struct ReturnCodeEntry {
    pub code: i32,
    pub message: &'static str,
    pub color: Color,
}

/// Whether the code has an entry: 0, 2, 3 and 4 have one, no other code has.
pub open spec fn is_classified(code: int) -> bool {
    code == 0 || code == 2 || code == 3 || code == 4
}

/// The message for a classified code.
pub open spec fn message_of(code: int) -> Seq<char> {
    if code == 0 {
        "executed successfully"@
    } else if code == 2 {
        "returned general error"@
    } else if code == 3 {
        "returned critical error"@
    } else {
        "returned user error"@
    }
}

/// The colour for a classified code: green for success, red for every error.
pub open spec fn color_of(code: int) -> Color {
    if code == 0 {
        Color::Green
    } else {
        Color::Red
    }
}

/// Looks a return code up.  Codes without an entry, the self-rendered code 1
/// among them, give `None`; that is an ordinary outcome and no failure.
pub fn classify(code: i32) -> (entry: Option<ReturnCodeEntry>)
    ensures
        entry is Some <==> is_classified(code as int),
        entry matches Some(e) ==> e.code == code && e.message@ == message_of(code as int)
            && e.color == color_of(code as int),
{
    if code == 0 {
        Some(ReturnCodeEntry { code: 0, message: "executed successfully", color: Color::Green })
    } else if code == 2 {
        Some(ReturnCodeEntry { code: 2, message: "returned general error", color: Color::Red })
    } else if code == 3 {
        Some(ReturnCodeEntry { code: 3, message: "returned critical error", color: Color::Red })
    } else if code == 4 {
        Some(ReturnCodeEntry { code: 4, message: "returned user error", color: Color::Red })
    } else {
        None
    }
}

} // verus!
