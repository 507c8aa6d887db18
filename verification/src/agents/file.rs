//! The agent that reads, writes and deletes files.

use vstd::prelude::*;
use vstd::string::*;
use crate::agents::AgentResult;
use crate::security::Operation;

verus! {

/// Reads, writes and deletes files.
#[derive(Debug, Clone, Copy)]
pub struct FileAgent;

/// The file-system action a file operation asks for.
#[derive(Debug, Clone)]
pub enum FileRequest {
    Read { path: String },
    Write { path: String, content: String },
    Delete { path: String },
}

/// `prefix`, the path, `": "` and the reason: the text of a failed file action.
pub open spec fn failure_text(prefix: Seq<char>, path: Seq<char>, reason: Seq<char>) -> Seq<char> {
    prefix + path + ": "@ + reason
}

fn failure(prefix: &str, path: &str, reason: &str) -> (s: String)
    ensures
        s@ == failure_text(prefix@, path@, reason@),
{
    let mut s = String::from_str(prefix);
    s.append(path);
    s.append(": ");
    s.append(reason);
    s
}

impl FileAgent {
    /// The agent's name.
    pub fn name(&self) -> (s: &'static str)
        ensures
            s@ == "file"@,
    {
        "file"
    }

    /// Whether the agent takes `op`: reads, writes and deletes of files.
    pub fn can_handle(&self, op: &Operation) -> (b: bool)
        ensures
            b == (op@ is FileRead || op@ is FileWrite || op@ is FileDelete),
    {
        matches!(
            op,
            Operation::FileRead { .. } | Operation::FileWrite { .. } | Operation::FileDelete { .. }
        )
    }

    /// The action to carry out for `op`; any other kind of operation is refused.
    pub fn request(&self, op: &Operation) -> (r: Result<FileRequest, String>)
        ensures
            match op {
                Operation::FileRead { path } => r matches Ok(FileRequest::Read { path: p })
                    && p@ == path@,
                Operation::FileWrite { path, content } => r matches Ok(
                    FileRequest::Write { path: p, content: c },
                ) && p@ == path@ && c@ == content@,
                Operation::FileDelete { path } => r matches Ok(FileRequest::Delete { path: p })
                    && p@ == path@,
                _ => r matches Err(e) && e@ == "Operation is not a File variant"@,
            },
    {
        match op {
            Operation::FileRead { path } => Ok(FileRequest::Read { path: path.clone() }),
            Operation::FileWrite { path, content } => Ok(
                FileRequest::Write { path: path.clone(), content: content.clone() },
            ),
            Operation::FileDelete { path } => Ok(FileRequest::Delete { path: path.clone() }),
            _ => Err(String::from_str("Operation is not a File variant")),
        }
    }

    /// The report on reading `path`: its content, or why it could not be read.
    pub fn read_finished(path: &str, outcome: Result<String, String>) -> (r: Result<AgentResult, String>)
        ensures
            match outcome {
                Ok(content) => r matches Ok(a) && a.success && a.output@ == content@
                    && a.error is None,
                Err(why) => r matches Err(e) && e@ == failure_text("Failed to read "@, path@, why@),
            },
    {
        match outcome {
            Ok(content) => Ok(AgentResult { success: true, output: content, error: None }),
            Err(why) => Err(failure("Failed to read ", path, why.as_str())),
        }
    }

    /// The refusal when the directory that is to hold a written file could
    /// not be created.
    pub fn parent_dir_failed(why: &str) -> (e: String)
        ensures
            e@ == "Failed to create parent dir: "@ + why@,
    {
        String::from_str("Failed to create parent dir: ").concat(why)
    }

    /// The report on writing `path`: `ok`, or why it could not be written.
    pub fn write_finished(path: &str, outcome: Result<(), String>) -> (r: Result<AgentResult, String>)
        ensures
            match outcome {
                Ok(_) => r matches Ok(a) && a.success && a.output@ == "ok"@ && a.error is None,
                Err(why) => r matches Err(e) && e@ == failure_text("Failed to write "@, path@, why@),
            },
    {
        match outcome {
            Ok(_) => Ok(AgentResult { success: true, output: String::from_str("ok"), error: None }),
            Err(why) => Err(failure("Failed to write ", path, why.as_str())),
        }
    }

    /// The report on deleting `path`: `deleted`, or why it could not be deleted.
    pub fn delete_finished(path: &str, outcome: Result<(), String>) -> (r: Result<AgentResult, String>)
        ensures
            match outcome {
                Ok(_) => r matches Ok(a) && a.success && a.output@ == "deleted"@ && a.error is None,
                Err(why) => r matches Err(e) && e@ == failure_text("Failed to delete "@, path@, why@),
            },
    {
        match outcome {
            Ok(_) => Ok(
                AgentResult { success: true, output: String::from_str("deleted"), error: None },
            ),
            Err(why) => Err(failure("Failed to delete ", path, why.as_str())),
        }
    }
}

} // verus!
