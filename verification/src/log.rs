//! The records of the log sink.

use crate::supervisor::{ExitReport, StopAction};
use vstd::prelude::*;

verus! {

/// A record as it is shown on the console: the message behind the fixed tag.
pub open spec fn console_text(message: Seq<char>) -> Seq<char> {
    "[nebula-tower] "@ + message
}

/// The console's form of the record for `message`. The log file holds the
/// message itself.
pub fn console_line(message: &str) -> (line: String)
    ensures
        line@ == console_text(message@),
{
    let mut line = String::from_str("[nebula-tower] ");
    line.append(message);
    line
}

/// The record that a request to stop leaves about the end of the process: one
/// if it ended a process, none otherwise.
pub open spec fn stop_text<H>(action: StopAction<H>) -> Option<Seq<char>> {
    match action {
        StopAction::Terminate(_) => Some("Nebula stopped"@),
        StopAction::Nothing => None,
    }
}

/// The record that the exit detector leaves after a poll, if any.
pub open spec fn exit_text(report: ExitReport) -> Option<Seq<char>> {
    match report {
        ExitReport::Exited(status) => Some("Nebula exited unexpectedly: "@ + status@),
        ExitReport::PollFailed(error) => Some("Error checking nebula status: "@ + error@),
        ExitReport::Nothing => None,
    }
}

/// The message to log once the process that a request to stop took out of the
/// record has been killed and waited for.
pub fn stop_message<H>(action: &StopAction<H>) -> (message: Option<String>)
    ensures
        match message {
            Some(m) => stop_text(*action) == Some(m@),
            None => stop_text(*action) is None,
        },
        message is Some <==> action.ends_process(),
{
    match action {
        StopAction::Terminate(_) => Some(String::from_str("Nebula stopped")),
        StopAction::Nothing => None,
    }
}

/// The message that the exit detector logs after a poll.
pub fn exit_message(report: &ExitReport) -> (message: Option<String>)
    ensures
        match message {
            Some(m) => exit_text(*report) == Some(m@),
            None => exit_text(*report) is None,
        },
        report.ends_process() ==> message is Some,
{
    match report {
        ExitReport::Exited(status) => {
            let mut m = String::from_str("Nebula exited unexpectedly: ");
            m.append(status.as_str());
            Some(m)
        },
        ExitReport::PollFailed(error) => {
            let mut m = String::from_str("Error checking nebula status: ");
            m.append(error.as_str());
            Some(m)
        },
        ExitReport::Nothing => None,
    }
}

} // verus!
