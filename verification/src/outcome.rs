//! What became of one run of the command.

use vstd::prelude::*;

verus! {

/// The classified result of one task.
#[derive(Clone, Debug, PartialEq, Eq)]
pub enum Outcome {
    /// The process ran and exited with code zero.
    Success { exit_code: i32 },
    /// The process ran and did not exit with code zero. Where it ended
    /// without an exit code, the code recorded is zero.
    ExitFailure { exit_code: i32 },
    /// The process could not be started.
    SpawnError { message: String },
}

/// What a process that was started left behind.
#[derive(Clone, Debug, PartialEq, Eq)]
pub struct ProcessOutput {
    /// The exit code, where the process ended with one.
    pub exit_code: Option<i32>,
    pub stdout: String,
    pub stderr: String,
}

/// A finished task: its outcome and the output captured from it.
#[derive(Clone, Debug, PartialEq, Eq)]
pub struct TaskResult {
    pub outcome: Outcome,
    pub stdout: String,
    pub stderr: String,
}

/// The outcome of a process that ended with `exit_code`.
pub open spec fn outcome_of_exit(exit_code: Option<i32>) -> Outcome {
    match exit_code {
        Some(code) => if code == 0 {
            Outcome::Success { exit_code: 0 }
        } else {
            Outcome::ExitFailure { exit_code: code }
        },
        None => Outcome::ExitFailure { exit_code: 0 },
    }
}

impl Outcome {
    /// Whether the task counts as a success. Every other outcome counts as a
    /// failure.
    pub fn is_success(&self) -> (yes: bool)
        ensures
            yes == (self is Success),
    {
        match self {
            Outcome::Success { .. } => true,
            _ => false,
        }
    }

    /// Whether the task counts as a failure: it exited with a code other than
    /// zero, without a code, or never started.
    pub fn is_failure(&self) -> (yes: bool)
        ensures
            yes == !(self is Success),
    {
        !self.is_success()
    }

    /// The exit code of the outcome. Only a task that never started has none.
    pub fn exit_code(&self) -> (code: Option<i32>)
        ensures
            code == match *self {
                Outcome::Success { exit_code } => Some(exit_code),
                Outcome::ExitFailure { exit_code } => Some(exit_code),
                Outcome::SpawnError { .. } => None,
            },
    {
        match self {
            Outcome::Success { exit_code } => Some(*exit_code),
            Outcome::ExitFailure { exit_code } => Some(*exit_code),
            Outcome::SpawnError { .. } => None,
        }
    }
}

/// Classifies what came back from starting a process and waiting for it.
///
/// A process that ran succeeded if it exited with code zero and failed
/// otherwise; its captured output is kept. A process that could not be
/// started is a spawn error with the given message and no output.
pub fn classify(spawned: Result<ProcessOutput, String>) -> (result: TaskResult)
    ensures
        match spawned {
            Ok(output) => {
                &&& result.outcome == outcome_of_exit(output.exit_code)
                &&& result.stdout == output.stdout
                &&& result.stderr == output.stderr
            },
            Err(message) => {
                &&& result.outcome == Outcome::SpawnError { message }
                &&& result.stdout@ == Seq::<char>::empty()
                &&& result.stderr@ == Seq::<char>::empty()
            },
        },
{
    match spawned {
        Ok(output) => {
            let outcome = match output.exit_code {
                Some(0) => Outcome::Success { exit_code: 0 },
                Some(code) => Outcome::ExitFailure { exit_code: code },
                None => Outcome::ExitFailure { exit_code: 0 },
            };
            TaskResult { outcome, stdout: output.stdout, stderr: output.stderr }
        },
        Err(message) => TaskResult {
            outcome: Outcome::SpawnError { message },
            stdout: String::new(),
            stderr: String::new(),
        },
    }
}

impl TaskResult {
    /// Whether the captured standard output is to be shown: only outside
    /// quiet mode, and only if there is any.
    pub fn shows_stdout(&self, quiet: bool) -> (yes: bool)
        ensures
            yes == (!quiet && self.stdout@.len() > 0),
    {
        !quiet && !self.stdout.as_str().is_empty()
    }

    /// Whether the captured standard error is to be shown: whenever there is
    /// any, quiet mode or not.
    pub fn shows_stderr(&self) -> (yes: bool)
        ensures
            yes == (self.stderr@.len() > 0),
    {
        !self.stderr.as_str().is_empty()
    }
}

} // verus!
