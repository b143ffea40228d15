//! The sixteen colours of the text display and the names users give them.

use vstd::prelude::*;
use crate::text::str_equal;
use crate::text::strip_newlines;
use crate::text::without_newlines;

verus! {

/// A colour of the text display, for the foreground or the background.
#[derive(Clone, Copy, Debug, PartialEq, Eq, Structural)]
pub enum Color {
    Black,
    Blue,
    Green,
    Cyan,
    Red,
    Magenta,
    Brown,
    LightGray,
    DarkGray,
    LightBlue,
    LightGreen,
    LightCyan,
    LightRed,
    Pink,
    Yellow,
    White,
}

/// The colour that goes by `name`, if any.  Names are lower case and match
/// exactly.
pub open spec fn color_named(name: Seq<char>) -> Option<Color> {
    if name == "black"@ {
        Some(Color::Black)
    } else if name == "blue"@ {
        Some(Color::Blue)
    } else if name == "green"@ {
        Some(Color::Green)
    } else if name == "cyan"@ {
        Some(Color::Cyan)
    } else if name == "red"@ {
        Some(Color::Red)
    } else if name == "magenta"@ {
        Some(Color::Magenta)
    } else if name == "brown"@ {
        Some(Color::Brown)
    } else if name == "lightgray"@ {
        Some(Color::LightGray)
    } else if name == "darkgray"@ {
        Some(Color::DarkGray)
    } else if name == "lightblue"@ {
        Some(Color::LightBlue)
    } else if name == "lightgreen"@ {
        Some(Color::LightGreen)
    } else if name == "lightcyan"@ {
        Some(Color::LightCyan)
    } else if name == "lightred"@ {
        Some(Color::LightRed)
    } else if name == "pink"@ {
        Some(Color::Pink)
    } else if name == "yellow"@ {
        Some(Color::Yellow)
    } else if name == "white"@ {
        Some(Color::White)
    } else {
        None
    }
}

/// What a user's argument selects: the colour named by the argument once its
/// newline characters are dropped.
pub open spec fn color_of_argument(arg: Seq<char>) -> Option<Color> {
    color_named(without_newlines(arg))
}

/// Looks a colour up by its exact name.
pub fn find_color(name: &str) -> (found: Option<Color>)
    ensures
        found == color_named(name@),
{
    if str_equal(name, "black") {
        Some(Color::Black)
    } else if str_equal(name, "blue") {
        Some(Color::Blue)
    } else if str_equal(name, "green") {
        Some(Color::Green)
    } else if str_equal(name, "cyan") {
        Some(Color::Cyan)
    } else if str_equal(name, "red") {
        Some(Color::Red)
    } else if str_equal(name, "magenta") {
        Some(Color::Magenta)
    } else if str_equal(name, "brown") {
        Some(Color::Brown)
    } else if str_equal(name, "lightgray") {
        Some(Color::LightGray)
    } else if str_equal(name, "darkgray") {
        Some(Color::DarkGray)
    } else if str_equal(name, "lightblue") {
        Some(Color::LightBlue)
    } else if str_equal(name, "lightgreen") {
        Some(Color::LightGreen)
    } else if str_equal(name, "lightcyan") {
        Some(Color::LightCyan)
    } else if str_equal(name, "lightred") {
        Some(Color::LightRed)
    } else if str_equal(name, "pink") {
        Some(Color::Pink)
    } else if str_equal(name, "yellow") {
        Some(Color::Yellow)
    } else if str_equal(name, "white") {
        Some(Color::White)
    } else {
        None
    }
}

/// Looks up the colour that a command argument names, ignoring any newline
/// characters in it.
pub fn color_from_argument(arg: &str) -> (found: Option<Color>)
    ensures
        found == color_of_argument(arg@),
{
    let name = strip_newlines(arg);
    find_color(name.as_str())
}

} // verus!
