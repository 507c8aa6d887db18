//! The agent that runs shell commands.

use vstd::prelude::*;
use vstd::string::*;
use crate::security::Operation;

verus! {

/// Runs a program with arguments.
#[derive(Debug, Clone, Copy)]
pub struct ShellAgent;

impl ShellAgent {
    /// The agent's name.
    pub fn name(&self) -> (s: &'static str)
        ensures
            s@ == "shell"@,
    {
        "shell"
    }

    /// Whether the agent takes `op`: shell operations only.
    pub fn can_handle(&self, op: &Operation) -> (b: bool)
        ensures
            b == (op@ is Shell),
    {
        matches!(op, Operation::Shell { .. })
    }

    /// The program and the arguments to run for `op`; any other kind of
    /// operation is refused.
    pub fn command_line<'a>(&self, op: &'a Operation) -> (r: Result<(&'a String, &'a Vec<String>), String>)
        ensures
            match op {
                Operation::Shell { command, args } => r == Ok::<_, String>((command, args)),
                _ => r matches Err(e) && e@ == "Operation is not a Shell variant"@,
            },
    {
        match op {
            Operation::Shell { command, args } => Ok((command, args)),
            _ => Err(String::from_str("Operation is not a Shell variant")),
        }
    }

    /// The refusal when the program could not be started, with the reason
    /// the system gave.
    pub fn spawn_failed(why: &str) -> (e: String)
        ensures
            e@ == "Failed to spawn process: "@ + why@,
    {
        String::from_str("Failed to spawn process: ").concat(why)
    }
}

} // verus!
