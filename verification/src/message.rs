//! The requests clients send to the daemon and the responses it returns.

use vstd::prelude::*;
use vstd::string::*;
use crate::clock::epoch_time_now;
use crate::config::SecurityLevel;
use crate::security::{Operation, OperationView};
use crate::text::{hex16, hex_lower, is_hex_char, lemma_padded_hex_shape, lemma_stamp_value, zero_padded};

verus! {

/// One request: an identifier echoed in the response, and the command.
#[derive(Debug)]
pub struct Request {
    pub id: String,
    pub command: Command,
}

/// What a client can ask of the daemon.
#[derive(Debug)]
pub enum Command {
    Submit { operation: Operation },
    Approve { task_id: String },
    Deny { task_id: String },
    Status,
    Pending,
    Logs { count: Option<usize> },
    Validate { operation: Operation },
    Exec { prompt: String },
}

/// The answer to one request: `status` is `ok` or `error`, with data or a
/// message.
#[derive(Debug)]
pub struct Response {
    pub id: String,
    pub status: String,
    pub data: Option<ResponseData>,
    pub message: Option<String>,
}

/// The payload of a successful response.
#[derive(Debug)]
pub enum ResponseData {
    Submit { task_id: String, level: SecurityLevel, action: String },
    Status { running: bool, uptime_secs: u64, tasks_pending: usize },
    Pending { tasks: Vec<PendingTask> },
    Logs { entries: Vec<String> },
    Validation { operation: String, level: SecurityLevel },
    Approved { task_id: String },
    Denied { task_id: String },
    Executed { task_id: String, success: bool, output: String },
    Exec { reasoning: String, results: Vec<ExecStep> },
}

/// One step of a plan carried out on a natural-language request.
#[derive(Debug)]
pub struct ExecStep {
    pub operation: String,
    pub level: String,
    pub success: bool,
    pub output: String,
}

/// An operation held until a client approves or denies it.
#[derive(Debug, Clone)]
pub struct PendingTask {
    pub task_id: String,
    pub operation: Operation,
    pub level: SecurityLevel,
    pub created_at: u64,
}

/// A held operation with its strings taken as character sequences.
pub struct PendingTaskView {
    pub task_id: Seq<char>,
    pub operation: OperationView,
    pub level: SecurityLevel,
    pub created_at: u64,
}

impl View for PendingTask {
    type V = PendingTaskView;

    open spec fn view(&self) -> PendingTaskView {
        PendingTaskView {
            task_id: self.task_id@,
            operation: self.operation@,
            level: self.level,
            created_at: self.created_at,
        }
    }
}

/// The text a client reports for an `error` response: its message, or
/// `unknown error` when it carries none.
pub open spec fn failure_text(r: Response) -> Option<Seq<char>> {
    if r.status@ == "error"@ {
        Some(
            match r.message {
                Some(m) => m@,
                None => "unknown error"@,
            },
        )
    } else {
        None
    }
}

impl Response {
    /// For an `error` response, the text to report; nothing otherwise.
    pub fn failure_message(&self) -> (m: Option<String>)
        ensures
            match (m, failure_text(*self)) {
                (Some(a), Some(b)) => a@ == b,
                (None, None) => true,
                _ => false,
            },
    {
        if self.status == String::from_str("error") {
            match &self.message {
                Some(msg) => Some(msg.clone()),
                None => Some(String::from_str("unknown error")),
            }
        } else {
            None
        }
    }
}

/// The sixteen-or-more lower-case hex digits that stamp a moment given in
/// nanoseconds since the epoch.
pub open spec fn stamp(nanos: nat) -> Seq<char> {
    zero_padded(hex_lower(nanos), 16)
}

/// A fresh request identifier: the current time since the epoch in
/// nanoseconds, as zero-padded lower-case hexadecimal.
pub fn uuid() -> (s: String)
    ensures
        exists|n: nat| s@ == stamp(n),
{
    let now = epoch_time_now();
    let n = now.as_nanos();
    let s = hex16(n);
    assert(s@ == stamp(n as nat));
    s
}

/// Every stamp is at least sixteen lower-case hexadecimal digits.
pub proof fn lemma_stamp_shape(n: nat)
    ensures
        stamp(n).len() >= 16,
        forall|i: int| 0 <= i < stamp(n).len() ==> is_hex_char(#[trigger] stamp(n)[i]),
{
    lemma_padded_hex_shape(n);
}

/// Different moments give different stamps.
pub proof fn lemma_stamp_injective(n: nat, m: nat)
    requires
        stamp(n) == stamp(m),
    ensures
        n == m,
{
    lemma_stamp_value(n);
    lemma_stamp_value(m);
}

} // verus!
