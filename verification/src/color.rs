//! The eight supported foreground colors and their ANSI parameters.

use vstd::prelude::*;
use vstd::string::StringExecFns;

verus! {

/// A foreground color, one of the eight bright ANSI colors.
///
/// Each color maps to a fixed two-digit SGR parameter in the bright
/// range `90`–`97`; [`Color::code`] exposes that parameter as a string.
#[derive(Clone, Copy, Debug, PartialEq, Eq, Structural)]
pub enum Color {
    Black,
    Red,
    Green,
    Yellow,
    Blue,
    Magenta,
    Cyan,
    White,
}

/// The two-digit ANSI SGR parameter of a color, as a character sequence.
pub open spec fn code_spec(c: Color) -> Seq<char> {
    match c {
        Color::Black => "90"@,
        Color::Red => "91"@,
        Color::Green => "92"@,
        Color::Yellow => "93"@,
        Color::Blue => "94"@,
        Color::Magenta => "95"@,
        Color::Cyan => "96"@,
        Color::White => "97"@,
    }
}

impl Color {
    /// The canonical two-digit ANSI parameter string of this color.
    pub fn code(&self) -> (r: String)
        ensures
            r@ == code_spec(*self),
    {
        match *self {
            Color::Black => String::from_str("90"),
            Color::Red => String::from_str("91"),
            Color::Green => String::from_str("92"),
            Color::Yellow => String::from_str("93"),
            Color::Blue => String::from_str("94"),
            Color::Magenta => String::from_str("95"),
            Color::Cyan => String::from_str("96"),
            Color::White => String::from_str("97"),
        }
    }
}

} // verus!
