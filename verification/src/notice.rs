//! The lines that tell of a task's start and end.

use crate::outcome::{Outcome, TaskResult};
use crate::text::{decimal, decimal_digits, signed_decimal, signed_digits};
use vstd::prelude::*;

verus! {

/// The summary of an outcome: success or failure with the exit code, or the
/// message of the error that kept the process from starting.
pub open spec fn summary_text(outcome: Outcome) -> Seq<char> {
    match outcome {
        Outcome::Success { exit_code } => "Success (Exit Code: "@ + signed_digits(exit_code as int)
            + ")"@,
        Outcome::ExitFailure { exit_code } => "Failed (Exit Code: "@ + signed_digits(
            exit_code as int,
        ) + ")"@,
        Outcome::SpawnError { message } => "Error: "@ + message@,
    }
}

/// The line that tells of the start of task `id`, with the number of tasks
/// then in flight.
pub open spec fn start_text(id: nat, running: nat) -> Seq<char> {
    "[Task "@ + decimal_digits(id) + "] Starting... (Running: "@ + decimal_digits(running) + ")"@
}

/// The line that tells of the end of task `id`, with the summary of its
/// outcome and the number of tasks still in flight.
pub open spec fn finish_text(id: nat, outcome: Outcome, running: nat) -> Seq<char> {
    "[Task "@ + decimal_digits(id) + "] Finished: "@ + summary_text(outcome) + " (Running: "@
        + decimal_digits(running) + ")"@
}

/// The block that shows what task `id` wrote to the stream called `stream`:
/// a heading, and the captured text on the lines after it.
pub open spec fn output_text(id: nat, stream: Seq<char>, captured: Seq<char>) -> Seq<char> {
    "[Task "@ + decimal_digits(id) + "] "@ + stream + ":\n"@ + captured
}

impl Outcome {
    /// The summary of the outcome, as it appears in the finish line.
    pub fn summary(&self) -> (text: String)
        ensures
            text@ == summary_text(*self),
    {
        match self {
            Outcome::Success { exit_code } => {
                let mut text = String::from_str("Success (Exit Code: ");
                text.append(signed_decimal(*exit_code).as_str());
                text.append(")");
                text
            },
            Outcome::ExitFailure { exit_code } => {
                let mut text = String::from_str("Failed (Exit Code: ");
                text.append(signed_decimal(*exit_code).as_str());
                text.append(")");
                text
            },
            Outcome::SpawnError { message } => {
                let mut text = String::from_str("Error: ");
                text.append(message.as_str());
                text
            },
        }
    }
}

/// The start line of task `id`.
pub fn start_notice(id: usize, running: usize) -> (text: String)
    ensures
        text@ == start_text(id as nat, running as nat),
{
    let mut text = String::from_str("[Task ");
    text.append(decimal(id as u64).as_str());
    text.append("] Starting... (Running: ");
    text.append(decimal(running as u64).as_str());
    text.append(")");
    text
}

/// The finish line of task `id`.
pub fn finish_notice(id: usize, outcome: &Outcome, running: usize) -> (text: String)
    ensures
        text@ == finish_text(id as nat, *outcome, running as nat),
{
    let mut text = String::from_str("[Task ");
    text.append(decimal(id as u64).as_str());
    text.append("] Finished: ");
    text.append(outcome.summary().as_str());
    text.append(" (Running: ");
    text.append(decimal(running as u64).as_str());
    text.append(")");
    text
}

/// The block `output_text(id, stream, captured)`.
fn output_notice(id: usize, stream: &str, captured: &str) -> (text: String)
    ensures
        text@ == output_text(id as nat, stream@, captured@),
{
    let mut text = String::from_str("[Task ");
    text.append(decimal(id as u64).as_str());
    text.append("] ");
    text.append(stream);
    text.append(":\n");
    text.append(captured);
    text
}

impl TaskResult {
    /// The block that shows the captured standard output of task `id`, or
    /// nothing in quiet mode or where the task wrote none.
    pub fn stdout_notice(&self, id: usize, quiet: bool) -> (notice: Option<String>)
        ensures
            match notice {
                Some(text) => {
                    &&& !quiet
                    &&& self.stdout@.len() > 0
                    &&& text@ == output_text(id as nat, "Stdout"@, self.stdout@)
                },
                None => quiet || self.stdout@.len() == 0,
            },
    {
        if self.shows_stdout(quiet) {
            Some(output_notice(id, "Stdout", self.stdout.as_str()))
        } else {
            None
        }
    }

    /// The block that shows the captured standard error of task `id`, quiet
    /// mode or not, or nothing where the task wrote none.
    pub fn stderr_notice(&self, id: usize) -> (notice: Option<String>)
        ensures
            match notice {
                Some(text) => {
                    &&& self.stderr@.len() > 0
                    &&& text@ == output_text(id as nat, "Stderr"@, self.stderr@)
                },
                None => self.stderr@.len() == 0,
            },
    {
        if self.shows_stderr() {
            Some(output_notice(id, "Stderr", self.stderr.as_str()))
        } else {
            None
        }
    }
}

} // verus!
