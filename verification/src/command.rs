//! The command that every task of a run executes.

use vstd::prelude::*;

verus! {

/// Why a run cannot start.
#[derive(Clone, Copy, Debug, PartialEq, Eq, Structural)]
pub enum StartupError {
    /// No command was given.
    NoCommand,
}

/// A program and the arguments it is called with.
#[derive(Clone, Debug, PartialEq, Eq)]
pub struct CommandLine {
    pub program: String,
    pub args: Vec<String>,
}

/// Splits the tokens of a command line into the program, which comes first,
/// and its arguments. An empty list names no program and is refused.
pub fn split_command(tokens: Vec<String>) -> (result: Result<CommandLine, StartupError>)
    ensures
        result is Err <==> tokens@.len() == 0,
        result matches Err(e) ==> e == StartupError::NoCommand,
        result matches Ok(command) ==> command.program == tokens@.first() && command.args@
            == tokens@.drop_first(),
{
    if tokens.len() == 0 {
        return Err(StartupError::NoCommand);
    }
    let mut args = tokens;
    let program = args.remove(0);
    assert(args@ =~= tokens@.drop_first());
    Ok(CommandLine { program, args })
}

} // verus!
