//! Lines as they travel over the serial port.
//!
//! Every line ends with a carriage return and a line feed. The port itself is
//! the caller's business; what is written to it and what a read gave go
//! through here.

use crate::error::{Failure, LoraError};
use vstd::prelude::*;
use vstd::string::*;

verus! {

/// The text of a line that was read, with its end: the text before the line
/// feed, less a carriage return in front of it. `None` where the text does
/// not end with a line feed.
pub open spec fn line_of(raw: Seq<char>) -> Option<Seq<char>> {
    if raw.len() == 0 || raw.last() != '\n' {
        None
    } else if raw.len() >= 2 && raw[raw.len() - 2] == '\r' {
        Some(raw.take(raw.len() - 2))
    } else {
        Some(raw.take(raw.len() - 1))
    }
}

/// A command comes back as it was when the end of line that was put behind
/// it is taken off.
pub proof fn lemma_framed_line_comes_back(data: Seq<char>)
    ensures
        line_of(data + "\r\n"@) == Some(data),
{
    reveal_strlit("\r\n");
}

/// Puts the end of line behind a command.
pub fn frame_line(data: String) -> (line: String)
    ensures
        line@ == data@ + "\r\n"@,
{
    data.concat("\r\n")
}

/// Takes the end of line off what was read.
///
/// Input that stops short of a line feed is a breach of the protocol.
pub fn strip_line(raw: &str) -> (r: Result<String, LoraError>)
    ensures
        match r {
            Ok(line) => line_of(raw@) == Some(line@),
            Err(e) => line_of(raw@) is None && e@ == Failure::Protocol(
                "Input line didn't end with newline"@,
            ),
        },
{
    let n = raw.unicode_len();
    if n == 0 || raw.get_char(n - 1) != '\n' {
        return Err(LoraError::Protocol(String::from_str("Input line didn't end with newline")));
    }
    let end = if n >= 2 && raw.get_char(n - 2) == '\r' {
        n - 2
    } else {
        n - 1
    };
    Ok(String::from_str(raw.substring_char(0, end)))
}

} // verus!
