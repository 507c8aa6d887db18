//! The agents that carry operations out. Running a process or touching the
//! file system happens outside this library; what stands here is each
//! agent's part that decides: which operations it takes, what it asks the
//! system to do, and what it reports from what the system answered.

pub mod file;
pub mod git;
pub mod shell;

use vstd::prelude::*;
use crate::security::{Operation, OperationView, is_file_op};

verus! {

/// What an agent reports after carrying out an operation.
#[derive(Debug, Clone)]
pub struct AgentResult {
    pub success: bool,
    pub output: String,
    pub error: Option<String>,
}

/// The agents the daemon can hand an operation to.
#[derive(Debug, Clone, Copy, PartialEq, Eq, Structural)]
pub enum AgentKind {
    Shell,
    File,
    Git,
}

/// Which operations each agent takes.
pub open spec fn handles(kind: AgentKind, op: OperationView) -> bool {
    match kind {
        AgentKind::Shell => op is Shell,
        AgentKind::File => is_file_op(op),
        AgentKind::Git => op is Git,
    }
}

/// Each agent's name.
pub open spec fn kind_name(kind: AgentKind) -> Seq<char> {
    match kind {
        AgentKind::Shell => "shell"@,
        AgentKind::File => "file"@,
        AgentKind::Git => "git"@,
    }
}

impl AgentKind {
    /// The agent's name.
    pub fn name(&self) -> (s: &'static str)
        ensures
            s@ == kind_name(*self),
    {
        match self {
            AgentKind::Shell => "shell",
            AgentKind::File => "file",
            AgentKind::Git => "git",
        }
    }

    /// Whether the agent takes `op`.
    pub fn can_handle(&self, op: &Operation) -> (b: bool)
        ensures
            b == handles(*self, op@),
    {
        match self {
            AgentKind::Shell => matches!(op, Operation::Shell { .. }),
            AgentKind::File => matches!(
                op,
                Operation::FileRead { .. } | Operation::FileWrite { .. } | Operation::FileDelete {
                    ..
                }
            ),
            AgentKind::Git => matches!(op, Operation::Git { .. }),
        }
    }
}

impl AgentResult {
    /// The report on a finished process: its standard output when it
    /// succeeded; otherwise its standard error, both as the output and as
    /// the error.
    pub fn from_process_output(success: bool, stdout: String, stderr: String) -> (r: AgentResult)
        ensures
            r.success == success,
            success ==> r.output@ == stdout@ && r.error is None,
            !success ==> (r.output@ == stderr@ && (r.error matches Some(e) && e@ == stderr@)),
    {
        if success {
            AgentResult { success, output: stdout, error: None }
        } else {
            AgentResult { success, output: stderr.clone(), error: Some(stderr) }
        }
    }
}

} // verus!
