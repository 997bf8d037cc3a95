//! The lines of the diagnostic log.

use crate::decimal::{decimal_text, write_decimal};
use vstd::prelude::*;
use vstd::string::StringExecFns;

verus! {

/// The text of a log line: the time in brackets, a space, the message.
pub open spec fn log_line_text(seconds: u64, message: Seq<char>) -> Seq<char> {
    "["@ + decimal_text(seconds as nat) + "] "@ + message
}

/// Makes the log line for `message`, written at `seconds` seconds since the
/// start of 1970.
pub fn log_line(seconds: u64, message: &str) -> (line: String)
    ensures
        line@ == log_line_text(seconds, message@),
{
    let mut line = "[".to_owned();
    write_decimal(seconds, &mut line);
    line.append("] ");
    line.append(message);
    line
}

} // verus!
