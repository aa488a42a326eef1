//! Dispatch: from a message's text to the reply it earns, and the diagnostic
//! lines that the handler emits.

use crate::command::{has_prefix, parse_command, parse_spec, Command};
use crate::rps::{
    draw_sample, outcome_of, outcome_text, rps_outcome, RpsOutcome, SAMPLE_RANGE, WIN_MAX,
};
use vstd::prelude::*;
use vstd::string::*;

verus! {

/// The reply that a command earns, given a sample for the game.
pub open spec fn reply_spec(cmd: Command, sample: int) -> Option<Seq<char>> {
    match cmd {
        Command::Ping => Some("pong!"@),
        Command::Remind => Some("@goomfy buy a controller"@),
        Command::RockPaperScissors => Some(outcome_text(outcome_of(sample))),
        Command::Unrecognized => None,
    }
}

/// The reply that a message earns, given a sample for the game.
pub open spec fn dispatch_spec(content: Seq<char>, sample: int) -> Option<Seq<char>> {
    match parse_spec(content) {
        Some(cmd) => reply_spec(cmd, sample),
        None => None,
    }
}

/// The diagnostic line for a reply that could not be sent.
pub open spec fn send_failure_line(detail: Seq<char>) -> Seq<char> {
    "Error sending message: "@ + detail
}

/// The diagnostic line for an established connection.
pub open spec fn connected_line(name: Seq<char>) -> Seq<char> {
    name + " is connected!"@
}

/// A message that does not start with `>>` earns no reply, whatever the
/// sample.
pub proof fn lemma_no_prefix_no_reply(content: Seq<char>, sample: int)
    requires
        !has_prefix(content),
    ensures
        dispatch_spec(content, sample) is None,
{
}

/// A game's reply is always one of the three outcome texts.
pub proof fn lemma_game_reply_is_outcome(content: Seq<char>, sample: int)
    requires
        parse_spec(content) == Some(Command::RockPaperScissors),
        0 <= sample < SAMPLE_RANGE,
    ensures
        dispatch_spec(content, sample) == Some("You lost"@) || dispatch_spec(content, sample)
            == Some("You win"@) || dispatch_spec(content, sample) == Some("We tied"@),
{
}

/// Each outcome of a game comes from some sample, so none is left out.
pub proof fn lemma_every_outcome_reachable(o: RpsOutcome)
    ensures
        exists|k: int| 0 <= k < SAMPLE_RANGE && outcome_of(k) == o,
{
    let k: int = match o {
        RpsOutcome::Lost => 0,
        RpsOutcome::Win => WIN_MAX as int,
        RpsOutcome::Tied => SAMPLE_RANGE - 1,
    };
    assert(0 <= k < SAMPLE_RANGE && outcome_of(k) == o);
}

/// Outside a game the sample plays no part: a message earns the same reply
/// each time it is dispatched.
pub proof fn lemma_reply_independent_of_sample(content: Seq<char>, s1: int, s2: int)
    requires
        parse_spec(content) != Some(Command::RockPaperScissors),
    ensures
        dispatch_spec(content, s1) == dispatch_spec(content, s2),
{
}

/// The reply that `cmd` earns, with `sample` deciding a game.
pub fn reply_for(cmd: Command, sample: u32) -> (r: Option<String>)
    requires
        sample < SAMPLE_RANGE,
    ensures
        r.deep_view() == reply_spec(cmd, sample as int),
{
    match cmd {
        Command::Ping => Some(String::from_str("pong!")),
        Command::Remind => Some(String::from_str("@goomfy buy a controller")),
        Command::RockPaperScissors => Some(rps_outcome(sample).text()),
        Command::Unrecognized => None,
    }
}

/// The reply that a message earns, with `sample` deciding a game; `None`
/// where the message is no command or an unknown one.
pub fn dispatch(content: &str, sample: u32) -> (r: Option<String>)
    requires
        sample < SAMPLE_RANGE,
    ensures
        r.deep_view() == dispatch_spec(content@, sample as int),
{
    match parse_command(content) {
        Some(cmd) => reply_for(cmd, sample),
        None => None,
    }
}

/// The line to report after a send: `None` where the reply went out, the
/// diagnostic with the error's detail where it did not.
pub fn send_report(sent: Result<(), String>) -> (r: Option<String>)
    ensures
        r.deep_view() == match sent {
            Ok(()) => None,
            Err(detail) => Some(send_failure_line(detail@)),
        },
{
    match sent {
        Ok(()) => None,
        Err(detail) => {
            let mut line = String::from_str("Error sending message: ");
            line.append(detail.as_str());
            Some(line)
        },
    }
}

/// The bot's event handler. It holds no state: each event is handled on its
/// own.
#[derive(Clone, Copy, Debug)]
pub struct Handler;

impl Handler {
    /// The reply to a message, drawing a sample only for a game.
    pub fn message(&self, content: &str) -> (r: Option<String>)
        ensures
            exists|k: int| 0 <= k < SAMPLE_RANGE && r.deep_view() == dispatch_spec(content@, k),
            parse_spec(content@) != Some(Command::RockPaperScissors) ==> r.deep_view()
                == dispatch_spec(content@, 0),
    {
        match parse_command(content) {
            Some(Command::RockPaperScissors) => {
                let sample = draw_sample();
                let r = reply_for(Command::RockPaperScissors, sample);
                assert(r.deep_view() == dispatch_spec(content@, sample as int));
                r
            },
            Some(cmd) => {
                let r = reply_for(cmd, 0);
                assert(r.deep_view() == dispatch_spec(content@, 0));
                r
            },
            None => {
                assert(dispatch_spec(content@, 0) is None);
                None
            },
        }
    }

    /// The diagnostic line for a connection established under `name`.
    pub fn ready(&self, name: &str) -> (r: String)
        ensures
            r@ == connected_line(name@),
    {
        let mut line = String::from_str(name);
        line.append(" is connected!");
        line
    }
}

} // verus!
