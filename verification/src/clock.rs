//! The local date and time as the system's `date /t` and `time /t` commands
//! print them, combined into one timestamp text.

use vstd::prelude::*;
use crate::text::{decode_lossy, trim, trimmed, utf8_lossy};

verus! {

/// One command's contribution: its trimmed output, or nothing when the
/// command could not be run.
pub open spec fn command_text(output: Option<Seq<char>>) -> Seq<char> {
    match output {
        Some(text) => trim(text),
        None => Seq::empty(),
    }
}

/// The timestamp from the decoded outputs of the date and time commands: date
/// and time separated by a space, trimmed.
pub open spec fn timestamp_of_texts(date: Option<Seq<char>>, time: Option<Seq<char>>) -> Seq<
    char,
> {
    trim(command_text(date) + " "@ + command_text(time))
}

/// A command's raw output, decoded as UTF-8 with ill-formed bytes replaced.
pub open spec fn decoded(stdout: Option<Seq<u8>>) -> Option<Seq<char>> {
    match stdout {
        Some(bytes) => Some(utf8_lossy(bytes)),
        None => None,
    }
}

/// The timestamp from the raw outputs of the date and time commands.
pub open spec fn timestamp_text(date_stdout: Option<Seq<u8>>, time_stdout: Option<Seq<u8>>) -> Seq<
    char,
> {
    timestamp_of_texts(decoded(date_stdout), decoded(time_stdout))
}

fn command_string(output: Option<&str>) -> (r: String)
    ensures
        r@ == command_text(
            match output {
                Some(t) => Some(t@),
                None => None,
            },
        ),
{
    match output {
        Some(text) => trimmed(text),
        None => String::new(),
    }
}

/// Builds the timestamp from the decoded outputs of the date and time
/// commands (`None` for a command that could not be run).
pub fn timestamp_from_texts(date: Option<&str>, time: Option<&str>) -> (r: String)
    ensures
        r@ == timestamp_of_texts(
            match date {
                Some(t) => Some(t@),
                None => None,
            },
            match time {
                Some(t) => Some(t@),
                None => None,
            },
        ),
{
    let mut joined = command_string(date);
    joined.append(" ");
    joined.append(command_string(time).as_str());
    trimmed(joined.as_str())
}

fn decode_output(stdout: Option<&[u8]>) -> (r: Option<String>)
    ensures
        match r {
            Some(t) => decoded(
                match stdout {
                    Some(b) => Some(b@),
                    None => None,
                },
            ) == Some(t@),
            None => stdout is None,
        },
{
    match stdout {
        Some(bytes) => Some(decode_lossy(bytes)),
        None => None,
    }
}

/// Builds the timestamp from the raw outputs of the date and time commands
/// (`None` for a command that could not be run).
pub fn timestamp_from_outputs(date_stdout: Option<&[u8]>, time_stdout: Option<&[u8]>) -> (r:
    String)
    ensures
        r@ == timestamp_text(
            match date_stdout {
                Some(b) => Some(b@),
                None => None,
            },
            match time_stdout {
                Some(b) => Some(b@),
                None => None,
            },
        ),
{
    let date = decode_output(date_stdout);
    let time = decode_output(time_stdout);
    let date_text: Option<&str> = match &date {
        Some(t) => Some(t.as_str()),
        None => None,
    };
    let time_text: Option<&str> = match &time {
        Some(t) => Some(t.as_str()),
        None => None,
    };
    timestamp_from_texts(date_text, time_text)
}

} // verus!
