//! Operator intents and the classification of operator input lines.

use vstd::prelude::*;
use vstd::string::StringExecFns;

use crate::style::Color;
use crate::style::LogTag;
use crate::textops::str_eq;
use crate::textops::trim;
use crate::textops::trim_spec;

verus! {

/// An operator intent, consumed exactly once by the command router.
pub enum CommandMessage {
    StartServer,
    StopServer,
    RestartServer,
    SendCommand(String),
    UpdateServerPath(String),
    Exit,
}

/// What an operator input line asks for.  `Help` and `SetPath` are handled
/// at the console (the one prints a summary, the other prompts for a path
/// before an intent is sent); the rest map onto intents.
pub enum LineKind {
    /// The line `help`: print the command summary.
    Help,
    /// The line `exit`: stop the server and end the program.
    Exit,
    /// The line `restart`: restart the server.
    Restart,
    /// The line `setpath`: prompt for a new executable path.
    SetPath,
    /// Anything else: forward the trimmed line to the server verbatim.
    Forward(String),
}

/// Classifies one operator input line: the line is trimmed and matched
/// case-sensitively against the recognized tokens; anything else is
/// forwarded verbatim.
pub fn parse_line(line: &str) -> (k: LineKind)
    ensures
        ({
            let t = trim_spec(line@);
            &&& (k is Help <==> t == "help"@)
            &&& (k is Exit <==> t == "exit"@)
            &&& (k is Restart <==> t == "restart"@)
            &&& (k is SetPath <==> t == "setpath"@)
            &&& (k matches LineKind::Forward(s) ==> s@ == t)
            &&& (!(t == "help"@ || t == "exit"@ || t == "restart"@ || t == "setpath"@) ==> k
                is Forward)
        }),
{
    proof {
        reveal_strlit("help");
        reveal_strlit("exit");
        reveal_strlit("restart");
        reveal_strlit("setpath");
        // The tokens differ pairwise already in their first character.
        assert("help"@[0] == 'h' && "exit"@[0] == 'e' && "restart"@[0] == 'r' && "setpath"@[0]
            == 's');
    }
    let t = trim(line);
    if str_eq(t.as_str(), "help") {
        LineKind::Help
    } else if str_eq(t.as_str(), "exit") {
        LineKind::Exit
    } else if str_eq(t.as_str(), "restart") {
        LineKind::Restart
    } else if str_eq(t.as_str(), "setpath") {
        LineKind::SetPath
    } else {
        LineKind::Forward(t)
    }
}

/// The command summary shown for `help`.
pub open spec fn help_text_spec() -> Seq<char> {
    "\n"@ + LogTag::Help.tag_spec() + " Available commands:\n    "@ + Color::Blue.text_spec()
        + "help"@ + Color::Reset.text_spec() + "       - Display this help message\n    "@
        + Color::Red.text_spec() + "exit"@ + Color::Reset.text_spec()
        + "       - Stop the server and exit the program\n    "@ + Color::Blue.text_spec()
        + "restart"@ + Color::Reset.text_spec() + "    - Restart the server\n    "@
        + Color::Blurp.text_spec() + "setpath"@ + Color::Reset.text_spec()
        + "    - Change the server executable path\n    "@
        + "[command]  - Any other input will be sent to the server as a command\n"@
        + Color::Reset.text_spec()
}

/// Builds the command summary shown for `help`.
pub fn help_text() -> (r: String)
    ensures
        r@ == help_text_spec(),
{
    let mut s = String::new();
    s.append("\n");
    s.append(LogTag::Help.tag());
    s.append(" Available commands:\n    ");
    s.append(Color::Blue.text());
    s.append("help");
    s.append(Color::Reset.text());
    s.append("       - Display this help message\n    ");
    s.append(Color::Red.text());
    s.append("exit");
    s.append(Color::Reset.text());
    s.append("       - Stop the server and exit the program\n    ");
    s.append(Color::Blue.text());
    s.append("restart");
    s.append(Color::Reset.text());
    s.append("    - Restart the server\n    ");
    s.append(Color::Blurp.text());
    s.append("setpath");
    s.append(Color::Reset.text());
    s.append("    - Change the server executable path\n    ");
    s.append("[command]  - Any other input will be sent to the server as a command\n");
    s.append(Color::Reset.text());
    s
}

} // verus!
