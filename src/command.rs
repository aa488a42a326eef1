//! Recognising commands: the `>>` prefix and the closed set of keywords.

use crate::text::{trim, trimmed};
use vstd::prelude::*;
use vstd::string::*;

verus! {

/// A command that a message can carry.
#[derive(Clone, Copy, Debug, PartialEq, Eq, Structural)]
pub enum Command {
    Ping,
    Remind,
    RockPaperScissors,
    /// A `>>`-prefixed message whose body is no known keyword.
    Unrecognized,
}

/// Whether the message text starts with the two characters `>>`.
pub open spec fn has_prefix(s: Seq<char>) -> bool {
    s.len() >= 2 && s[0] == '>' && s[1] == '>'
}

/// The command body: what follows the prefix, without surrounding whitespace.
pub open spec fn body_of(s: Seq<char>) -> Seq<char> {
    trimmed(s.subrange(2, s.len() as int))
}

/// The command that a body names; keywords match exactly, case included.
pub open spec fn command_of(body: Seq<char>) -> Command {
    if body == "ping"@ {
        Command::Ping
    } else if body == "remind"@ {
        Command::Remind
    } else if body == "rps"@ {
        Command::RockPaperScissors
    } else {
        Command::Unrecognized
    }
}

/// The command that a message carries, or `None` where it is no command.
pub open spec fn parse_spec(s: Seq<char>) -> Option<Command> {
    if has_prefix(s) {
        Some(command_of(body_of(s)))
    } else {
        None
    }
}

/// Whether two strings hold the same characters.
pub fn same_text(a: &str, b: &str) -> (r: bool)
    ensures
        r == (a@ == b@),
{
    let n = a.unicode_len();
    if n != b.unicode_len() {
        return false;
    }
    let mut i: usize = 0;
    while i < n
        invariant
            n == a@.len(),
            n == b@.len(),
            i <= n,
            forall|k: int| 0 <= k < i ==> a@[k] == b@[k],
        decreases n - i,
    {
        if a.get_char(i) != b.get_char(i) {
            return false;
        }
        i = i + 1;
    }
    assert(a@ =~= b@);
    true
}

/// The command that a trimmed body names.
pub fn command_of_body(body: &str) -> (r: Command)
    ensures
        r == command_of(body@),
{
    if same_text(body, "ping") {
        Command::Ping
    } else if same_text(body, "remind") {
        Command::Remind
    } else if same_text(body, "rps") {
        Command::RockPaperScissors
    } else {
        Command::Unrecognized
    }
}

/// Reads a message: `None` where it does not start with `>>`, else the
/// command that its trimmed body names.
pub fn parse_command(content: &str) -> (r: Option<Command>)
    ensures
        r == parse_spec(content@),
{
    let n = content.unicode_len();
    if n < 2 || content.get_char(0) != '>' || content.get_char(1) != '>' {
        return None;
    }
    let body = trim(content.substring_char(2, n));
    Some(command_of_body(body))
}

} // verus!
