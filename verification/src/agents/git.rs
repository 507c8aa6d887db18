//! The agent that runs git commands in a repository.

use vstd::prelude::*;
use vstd::string::*;
use crate::security::Operation;
use crate::text::{split_words, words};

verus! {

/// Runs `git` with the words of a command, inside a repository.
#[derive(Debug, Clone, Copy)]
pub struct GitAgent;

impl GitAgent {
    /// The agent's name.
    pub fn name(&self) -> (s: &'static str)
        ensures
            s@ == "git"@,
    {
        "git"
    }

    /// Whether the agent takes `op`: git operations only.
    pub fn can_handle(&self, op: &Operation) -> (b: bool)
        ensures
            b == (op@ is Git),
    {
        matches!(op, Operation::Git { .. })
    }

    /// The arguments to pass to `git` (the command split at white space)
    /// and the directory to run it in; any other kind of operation is
    /// refused.
    pub fn invocation<'a>(&self, op: &'a Operation) -> (r: Result<(Vec<String>, &'a String), String>)
        ensures
            match op {
                Operation::Git { command, repo_path } => r matches Ok((args, dir))
                    && args.deep_view() == words(command@) && dir == repo_path,
                _ => r matches Err(e) && e@ == "Operation is not a Git variant"@,
            },
    {
        match op {
            Operation::Git { command, repo_path } => Ok((split_words(command.as_str()), repo_path)),
            _ => Err(String::from_str("Operation is not a Git variant")),
        }
    }

    /// The refusal when `git` could not be started in the repository, with
    /// the reason the system gave.
    pub fn spawn_failed(why: &str) -> (e: String)
        ensures
            e@ == "Failed to execute git: "@ + why@,
    {
        String::from_str("Failed to execute git: ").concat(why)
    }
}

} // verus!
