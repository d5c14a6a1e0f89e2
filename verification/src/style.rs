//! Console styling: the tag shown in front of each log line and the ANSI
//! color escape sequences used by the operator interface.

use vstd::prelude::*;

verus! {

/// The category of a log line; each category has a fixed display tag.
pub enum LogTag {
    ServerManager,
    ConsoleInput,
    Warning,
    Error,
    Restart,
    Help,
}

impl LogTag {
    /// The display tag of each log category.
    pub open spec fn tag_spec(self) -> Seq<char> {
        match self {
            LogTag::ServerManager => "\x1b[30m\x1b[48;5;134m[Server-Manager]\x1b[0m"@,
            LogTag::ConsoleInput => "\x1b[30m\x1b[48;5;195m > \x1b[0m"@,
            LogTag::Warning => "\x1b[30m\x1b[48;5;214m ! \x1b[0m"@,
            LogTag::Error => "\x1b[30m\x1b[41m[ERROR]\x1b[0m"@,
            LogTag::Restart => "\x1b[30m\x1b[44m R \x1b[0m"@,
            LogTag::Help => "\x1b[30m\x1b[44m[HELP]\x1b[0m"@,
        }
    }

    pub fn tag(&self) -> (r: &'static str)
        ensures
            r@ == self.tag_spec(),
    {
        match self {
            LogTag::ServerManager => "\x1b[30m\x1b[48;5;134m[Server-Manager]\x1b[0m",
            LogTag::ConsoleInput => "\x1b[30m\x1b[48;5;195m > \x1b[0m",
            LogTag::Warning => "\x1b[30m\x1b[48;5;214m ! \x1b[0m",
            LogTag::Error => "\x1b[30m\x1b[41m[ERROR]\x1b[0m",
            LogTag::Restart => "\x1b[30m\x1b[44m R \x1b[0m",
            LogTag::Help => "\x1b[30m\x1b[44m[HELP]\x1b[0m",
        }
    }
}

/// A console color, rendered as an ANSI escape sequence.
pub enum Color {
    Red,
    Green,
    Blue,
    Blurp,
    Orange,
    Reset,
    PaleMint,
    Magenta,
}

impl Color {
    /// The escape sequence of each color.
    pub open spec fn text_spec(self) -> Seq<char> {
        match self {
            Color::Red => "\x1b[31m"@,
            Color::Green => "\x1b[32m"@,
            Color::PaleMint => "\x1b[38;5;195m"@,
            Color::Blue => "\x1b[34m"@,
            Color::Blurp => "\x1b[38;5;111m"@,
            Color::Orange => "\x1b[38;5;214m"@,
            Color::Reset => "\x1b[0m"@,
            Color::Magenta => "\x1b[35m"@,
        }
    }

    pub fn text(&self) -> (r: &'static str)
        ensures
            r@ == self.text_spec(),
    {
        match self {
            Color::Red => "\x1b[31m",
            Color::Green => "\x1b[32m",
            Color::PaleMint => "\x1b[38;5;195m",
            Color::Blue => "\x1b[34m",
            Color::Blurp => "\x1b[38;5;111m",
            Color::Orange => "\x1b[38;5;214m",
            Color::Reset => "\x1b[0m",
            Color::Magenta => "\x1b[35m",
        }
    }
}

} // verus!
