//! Terminal colors, as ANSI escape codes.

use vstd::prelude::*;

verus! {

/// A color the console can render.
#[derive(Clone, Copy, Debug, PartialEq, Eq, Structural)]
pub enum TextColor {
    Red,
    Green,
    Yellow,
    Blue,
    Magenta,
    Cyan,
    Reset,
}

impl TextColor {
    /// The tail of the ANSI escape sequence that selects the color.
    pub open spec fn spec_code(&self) -> Seq<char> {
        match self {
            TextColor::Red => "31m"@,
            TextColor::Green => "32m"@,
            TextColor::Yellow => "33m"@,
            TextColor::Blue => "34m"@,
            TextColor::Magenta => "35m"@,
            TextColor::Cyan => "36m"@,
            TextColor::Reset => "0m"@,
        }
    }

    /// The tail of the ANSI escape sequence that selects the color.
    pub fn as_code(&self) -> (r: &str)
        ensures
            r@ == self.spec_code(),
    {
        match self {
            TextColor::Red => "31m",
            TextColor::Green => "32m",
            TextColor::Yellow => "33m",
            TextColor::Blue => "34m",
            TextColor::Magenta => "35m",
            TextColor::Cyan => "36m",
            TextColor::Reset => "0m",
        }
    }
}

} // verus!
