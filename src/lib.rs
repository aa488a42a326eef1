//! Command handling for a chat bot: recognising `>>`-prefixed commands in
//! message text and choosing the reply that each one earns.

pub mod command;
pub mod dispatch;
pub mod rps;
pub mod text;

pub use command::{command_of_body, parse_command, same_text, Command};
pub use dispatch::{dispatch, reply_for, send_report, Handler};
pub use rps::{draw_sample, rps_outcome, RpsOutcome, LOST_MAX, SAMPLE_RANGE, WIN_MAX};
pub use text::{is_whitespace_char, trim};

