//! The daemon's decisions. Each request either gets a response at once or
//! asks the caller to run an operation with an agent and report back; the
//! daemon keeps the queue of operations that wait for approval. Reading the
//! socket, running agents and measuring uptime are the caller's part.

use vstd::prelude::*;
use vstd::string::*;
use crate::agents::{AgentKind, AgentResult, handles};
use crate::clock::epoch_time_now;
use crate::config::{Config, SecurityConfig, SecurityLevel};
use crate::message::{Command, PendingTask, Request, Response, ResponseData, lemma_stamp_injective, stamp};
use crate::security::{Operation, description, rating, resolved_view};
use crate::text::hex16;

verus! {

/// What the daemon does with one request.
#[derive(Debug)]
pub enum Step {
    /// Send this response.
    Reply(Response),
    /// Run `operation` with an agent, then send `Daemon::execution_reply`
    /// of the outcome under `id` and `task_id`.
    Execute { id: String, task_id: String, operation: Operation },
}

/// The daemon's state: its configuration, its agents in the order they are
/// asked, and the operations waiting for approval, oldest first.
pub struct Daemon {
    pub config: Config,
    pub agents: Vec<AgentKind>,
    pub pending: Vec<PendingTask>,
}

/// A task identifier: `task_` and the stamp of some moment.
pub open spec fn is_task_id(t: Seq<char>) -> bool {
    exists|n: nat| t == "task_"@ + stamp(n)
}

/// A task identifier made from a clock reading that falls within second
/// `secs` after the epoch: `task_` and the stamp of that reading in
/// nanoseconds.
pub open spec fn stamped_at(t: Seq<char>, secs: u64) -> bool {
    exists|n: nat| t == "task_"@ + stamp(n) && n / 1_000_000_000 == secs
}

/// An `error` response to request `id` carrying `msg`.
pub open spec fn is_error_reply(r: Response, id: Seq<char>, msg: Seq<char>) -> bool {
    &&& r.id@ == id
    &&& r.status@ == "error"@
    &&& r.data is None
    &&& (r.message matches Some(m) && m@ == msg)
}

/// An `ok` response to request `id` with data and no message.
pub open spec fn is_ok_reply(r: Response, id: Seq<char>) -> bool {
    &&& r.id@ == id
    &&& r.status@ == "ok"@
    &&& r.data is Some
    &&& r.message is None
}

/// The message that refuses an operation.
pub open spec fn refusal_text(op: Operation) -> Seq<char> {
    "Operation denied by policy: "@ + description(op@)
}

/// The message for a task identifier that is not queued.
pub open spec fn not_found_text(task_id: Seq<char>) -> Seq<char> {
    "Task "@ + task_id + " not found in pending queue"@
}

/// Whether `i` is the position of the oldest queued task with identifier `id`.
pub open spec fn is_first_match(q: Seq<PendingTask>, id: Seq<char>, i: int) -> bool {
    &&& 0 <= i < q.len()
    &&& q[i].task_id@ == id
    &&& forall|j: int| 0 <= j < i ==> (#[trigger] q[j]).task_id@ != id
}

/// Whether some queued task has identifier `id`.
pub open spec fn has_task(q: Seq<PendingTask>, id: Seq<char>) -> bool {
    exists|i: int| 0 <= i < q.len() && (#[trigger] q[i]).task_id@ == id
}

/// The position of the oldest queued task with identifier `id`, if any.
pub open spec fn find_task(q: Seq<PendingTask>, id: Seq<char>) -> Option<int> {
    if exists|i: int| is_first_match(q, id, i) {
        Some(choose|i: int| is_first_match(q, id, i))
    } else {
        None
    }
}

/// The queue once the oldest task with identifier `id` has been taken out
/// (unchanged when there is none).
pub open spec fn without_task(q: Seq<PendingTask>, id: Seq<char>) -> Seq<PendingTask> {
    match find_task(q, id) {
        Some(i) => q.remove(i),
        None => q,
    }
}

/// The queue after a submission rated `level`: only operations that need
/// approval are held, at the end.
pub open spec fn after_submit(q: Seq<PendingTask>, level: SecurityLevel, task: PendingTask) -> Seq<PendingTask> {
    if level == SecurityLevel::Confirm {
        q.push(task)
    } else {
        q
    }
}

/// What a submission rated `level` answers: a refusal, a request to run the
/// operation under `task_id`, or an acknowledgement that it awaits approval
/// under `task_id`.
pub open spec fn submit_step(s: Step, id: Seq<char>, op: Operation, level: SecurityLevel, task_id: Seq<char>) -> bool {
    match level {
        SecurityLevel::Deny => s matches Step::Reply(r) && is_error_reply(r, id, refusal_text(op)),
        SecurityLevel::Auto => s matches Step::Execute { id: i, task_id: t, operation: o } && i@ == id
            && t@ == task_id && o == op,
        SecurityLevel::Confirm => s matches Step::Reply(r) && is_ok_reply(r, id) && (r.data matches Some(
            ResponseData::Submit { task_id: t, level: l, action: a },
        ) && t@ == task_id && l == SecurityLevel::Confirm && a@ == "Awaiting approval"@),
    }
}

/// A submission of `op` rated `level`, held (when it is) as a task with
/// identifier `task_id` created at `created_at`: the identifier is made from
/// the clock reading whose whole seconds are `created_at`, and the queue and
/// the answer follow.
pub open spec fn submitted_as(
    q: Seq<PendingTask>,
    q2: Seq<PendingTask>,
    s: Step,
    id: Seq<char>,
    op: Operation,
    level: SecurityLevel,
    task_id: String,
    created_at: u64,
) -> bool {
    &&& (level != SecurityLevel::Deny ==> stamped_at(task_id@, created_at))
    &&& q2 == after_submit(
        q,
        level,
        PendingTask { task_id, operation: op, level: SecurityLevel::Confirm, created_at },
    )
    &&& submit_step(s, id, op, level, task_id@)
}

/// A submission of `op` rated `level` under some task identifier and
/// creation time related as `submitted_as` says.
pub open spec fn submit_outcome(
    q: Seq<PendingTask>,
    q2: Seq<PendingTask>,
    s: Step,
    id: Seq<char>,
    op: Operation,
    level: SecurityLevel,
) -> bool {
    exists|task_id: String, created_at: u64|
        #[trigger] submitted_as(q, q2, s, id, op, level, task_id, created_at)
}

/// An approval of `task_id`: the oldest such task leaves the queue and is
/// to be run; without one, an error.
pub open spec fn approve_outcome(q: Seq<PendingTask>, q2: Seq<PendingTask>, s: Step, id: Seq<char>, task_id: Seq<char>) -> bool {
    &&& q2 == without_task(q, task_id)
    &&& match find_task(q, task_id) {
        Some(i) => s matches Step::Execute { id: i2, task_id: t, operation: o } && i2@ == id && t
            == q[i].task_id && o == q[i].operation,
        None => s matches Step::Reply(r) && is_error_reply(r, id, not_found_text(task_id)),
    }
}

/// A denial of `task_id`: the oldest such task leaves the queue unrun; without
/// one, an error.
pub open spec fn deny_outcome(q: Seq<PendingTask>, q2: Seq<PendingTask>, r: Response, id: Seq<char>, task_id: Seq<char>) -> bool {
    &&& q2 == without_task(q, task_id)
    &&& match find_task(q, task_id) {
        Some(i) => is_ok_reply(r, id) && (r.data matches Some(ResponseData::Denied { task_id: t })
            && t == q[i].task_id),
        None => is_error_reply(r, id, not_found_text(task_id)),
    }
}

/// The answer to a status request.
pub open spec fn status_reply(r: Response, id: Seq<char>, uptime_secs: u64) -> bool {
    is_ok_reply(r, id) && (r.data matches Some(
        ResponseData::Status { running, uptime_secs: u, tasks_pending },
    ) && running && u == uptime_secs && tasks_pending == 0)
}

/// The answer listing the queue: a copy of every held task, oldest first.
pub open spec fn pending_reply(r: Response, id: Seq<char>, q: Seq<PendingTask>) -> bool {
    is_ok_reply(r, id) && (r.data matches Some(ResponseData::Pending { tasks }) && tasks@.len()
        == q.len() && forall|i: int| 0 <= i < q.len() ==> (#[trigger] tasks@[i])@ == q[i]@)
}

/// The answer to a log request.
pub open spec fn logs_reply(r: Response, id: Seq<char>) -> bool {
    is_ok_reply(r, id) && (r.data matches Some(ResponseData::Logs { entries })
        && entries.deep_view() == seq!["Audit logging not yet implemented"@])
}

/// The answer to a validation request: the description and the rating.
pub open spec fn validate_reply(r: Response, id: Seq<char>, op: Operation, level: SecurityLevel) -> bool {
    is_ok_reply(r, id) && (r.data matches Some(ResponseData::Validation { operation, level: l })
        && operation@ == description(op@) && l == level)
}

/// The message for a command this daemon does not carry out.
pub open spec fn unsupported_text() -> Seq<char> {
    "Unsupported command: exec"@
}

/// What one request leads to, given the queue `q` before it, the queue
/// `q2` after it and the step `s` taken, under policy `sec`.
pub open spec fn request_outcome(
    q: Seq<PendingTask>,
    q2: Seq<PendingTask>,
    s: Step,
    req: Request,
    sec: SecurityConfig,
    resolved: Option<Seq<char>>,
    uptime_secs: u64,
) -> bool {
    match req.command {
        Command::Submit { operation } => submit_outcome(
            q,
            q2,
            s,
            req.id@,
            operation,
            rating(sec, operation@, resolved),
        ),
        Command::Approve { task_id } => approve_outcome(q, q2, s, req.id@, task_id@),
        Command::Deny { task_id } => s matches Step::Reply(r) && deny_outcome(
            q,
            q2,
            r,
            req.id@,
            task_id@,
        ),
        Command::Status => q2 == q && (s matches Step::Reply(r) && status_reply(
            r,
            req.id@,
            uptime_secs,
        )),
        Command::Pending => q2 == q && (s matches Step::Reply(r) && pending_reply(r, req.id@, q)),
        Command::Logs { .. } => q2 == q && (s matches Step::Reply(r) && logs_reply(r, req.id@)),
        Command::Validate { operation } => q2 == q && (s matches Step::Reply(r) && validate_reply(
            r,
            req.id@,
            operation,
            rating(sec, operation@, resolved),
        )),
        Command::Exec { .. } => q2 == q && (s matches Step::Reply(r) && is_error_reply(
            r,
            req.id@,
            unsupported_text(),
        )),
    }
}

/// The first agent in `agents` that takes `op`.
pub open spec fn first_handler(agents: Seq<AgentKind>, op: Operation) -> Option<AgentKind> {
    if exists|i: int| 0 <= i < agents.len() && handles(#[trigger] agents[i], op@) {
        let i = choose|i: int|
            0 <= i < agents.len() && handles(#[trigger] agents[i], op@) && forall|j: int|
                0 <= j < i ==> !handles(#[trigger] agents[j], op@);
        Some(agents[i])
    } else {
        None
    }
}

fn ok_reply(id: String, data: ResponseData) -> (r: Response)
    ensures
        r.id == id,
        r.status@ == "ok"@,
        r.data == Some(data),
        r.message is None,
{
    Response { id, status: String::from_str("ok"), data: Some(data), message: None }
}

fn error_reply(id: String, msg: String) -> (r: Response)
    ensures
        is_error_reply(r, id@, msg@),
{
    Response { id, status: String::from_str("error"), data: None, message: Some(msg) }
}

fn not_found(id: String, task_id: &str) -> (r: Response)
    ensures
        is_error_reply(r, id@, not_found_text(task_id@)),
{
    let mut msg = String::from_str("Task ");
    msg.append(task_id);
    msg.append(" not found in pending queue");
    error_reply(id, msg)
}

/// The answer to a line that is not a request: an error under the
/// identifier `unknown`, with the parser's reason.
pub fn invalid_json_reply(reason: &str) -> (r: Response)
    ensures
        is_error_reply(r, "unknown"@, "Invalid JSON: "@ + reason@),
{
    error_reply(String::from_str("unknown"), String::from_str("Invalid JSON: ").concat(reason))
}

/// The identifier given to a task created at `nanos` nanoseconds after the epoch.
pub fn task_id_for(nanos: u128) -> (t: String)
    ensures
        t@ == "task_"@ + stamp(nanos as nat),
{
    String::from_str("task_").concat(hex16(nanos).as_str())
}

/// A fresh task identifier from the current time.
pub fn gen_task_id() -> (t: String)
    ensures
        is_task_id(t@),
{
    let now = epoch_time_now();
    let n = now.as_nanos();
    let t = task_id_for(n);
    assert(t@ == "task_"@ + stamp(n as nat));
    t
}

/// The position of the oldest task in `q` with identifier `id`.
fn position(q: &Vec<PendingTask>, id: &String) -> (p: Option<usize>)
    ensures
        match find_task(q@, id@) {
            Some(i) => p == Some(i as usize),
            None => p is None,
        },
{
    let n = q.len();
    let mut i: usize = 0;
    while i < n
        invariant
            n == q@.len(),
            i <= n,
            forall|j: int| 0 <= j < i ==> (#[trigger] q@[j]).task_id@ != id@,
        decreases n - i,
    {
        if q[i].task_id == *id {
            assert(is_first_match(q@, id@, i as int));
            let ghost c = choose|k: int| is_first_match(q@, id@, k);
            assert(c == i as int) by {
                if c < i {
                    assert(q@[c].task_id@ != id@);
                } else if c > i {
                    assert(q@[i as int].task_id@ == id@);
                }
            }
            return Some(i);
        }
        i += 1;
    }
    assert(!exists|k: int| is_first_match(q@, id@, k));
    None
}

impl Daemon {
    /// A daemon with no held tasks and the shell, file and git agents, asked
    /// in that order.
    pub fn new(config: Config) -> (d: Daemon)
        ensures
            d.config == config,
            d.agents@ == seq![AgentKind::Shell, AgentKind::File, AgentKind::Git],
            d.pending@.len() == 0,
    {
        let mut agents: Vec<AgentKind> = Vec::new();
        agents.push(AgentKind::Shell);
        agents.push(AgentKind::File);
        agents.push(AgentKind::Git);
        assert(agents@ =~= seq![AgentKind::Shell, AgentKind::File, AgentKind::Git]);
        Daemon { config, agents, pending: Vec::new() }
    }

    /// The first agent that takes `op`.
    pub fn find_agent(&self, op: &Operation) -> (a: Option<AgentKind>)
        ensures
            a == first_handler(self.agents@, *op),
    {
        let n = self.agents.len();
        let mut i: usize = 0;
        while i < n
            invariant
                n == self.agents@.len(),
                i <= n,
                forall|j: int| 0 <= j < i ==> !handles(#[trigger] self.agents@[j], op@),
            decreases n - i,
        {
            let k = self.agents[i];
            if k.can_handle(op) {
                let ghost c = choose|c: int|
                    0 <= c < self.agents@.len() && handles(#[trigger] self.agents@[c], op@) && forall|
                        j: int,
                    | 0 <= j < c ==> !handles(#[trigger] self.agents@[j], op@);
                assert(handles(self.agents@[i as int], op@));
                assert(c == i as int) by {
                    if c < i {
                        assert(!handles(self.agents@[c], op@));
                    } else if c > i {
                        assert(handles(self.agents@[i as int], op@));
                    }
                }
                return Some(k);
            }
            i += 1;
        }
        None
    }

    /// Acts on a submission under the given task identifier and creation
    /// time: refuses it, asks for it to be run, or holds it for approval, as
    /// its rating says. `resolved` is the canonical form of a file
    /// operation's path when it could be resolved.
    pub fn submit_with(
        &mut self,
        id: String,
        op: Operation,
        resolved: &Option<String>,
        task_id: String,
        created_at: u64,
    ) -> (s: Step)
        ensures
            final(self).config == old(self).config,
            final(self).agents == old(self).agents,
            final(self).pending@ == after_submit(
                old(self).pending@,
                rating(old(self).config.security, op@, resolved_view(*resolved)),
                PendingTask { task_id, operation: op, level: SecurityLevel::Confirm, created_at },
            ),
            submit_step(
                s,
                id@,
                op,
                rating(old(self).config.security, op@, resolved_view(*resolved)),
                task_id@,
            ),
    {
        let level = op.security_level(&self.config, resolved);
        match level {
            SecurityLevel::Deny => {
                let mut msg = String::from_str("Operation denied by policy: ");
                let desc = op.describe();
                msg.append(desc.as_str());
                Step::Reply(error_reply(id, msg))
            },
            SecurityLevel::Auto => Step::Execute { id, task_id, operation: op },
            SecurityLevel::Confirm => {
                let held = task_id.clone();
                self.pending.push(
                    PendingTask {
                        task_id: held,
                        operation: op,
                        level: SecurityLevel::Confirm,
                        created_at,
                    },
                );
                let data = ResponseData::Submit {
                    task_id,
                    level: SecurityLevel::Confirm,
                    action: String::from_str("Awaiting approval"),
                };
                Step::Reply(ok_reply(id, data))
            },
        }
    }

    /// Acts on a submission: refused operations are answered with an error,
    /// operations that may run at once are handed back to be run, and the
    /// rest are held for approval; the latter two under a task identifier
    /// made from one clock reading, whose whole seconds are the held task's
    /// creation time.
    pub fn handle_submit(&mut self, id: String, op: Operation, resolved: &Option<String>) -> (s: Step)
        ensures
            final(self).config == old(self).config,
            final(self).agents == old(self).agents,
            submit_outcome(
                old(self).pending@,
                final(self).pending@,
                s,
                id@,
                op,
                rating(old(self).config.security, op@, resolved_view(*resolved)),
            ),
    {
        let level = op.security_level(&self.config, resolved);
        let ghost q = self.pending@;
        let ghost the_op = op;
        let ghost the_id = id@;
        let (task_id, created_at) = match level {
            SecurityLevel::Deny => (String::new(), 0u64),
            _ => {
                let now = epoch_time_now();
                let n = now.as_nanos();
                let t = task_id_for(n);
                let secs = now.secs;
                let sub = now.subsec_nanos;
                assert((secs * 1_000_000_000 + sub) / 1_000_000_000 == secs) by (nonlinear_arith)
                    requires
                        sub < 1_000_000_000,
                ;
                assert(stamped_at(t@, secs));
                (t, secs)
            },
        };
        let ghost tid = task_id;
        let s = self.submit_with(id, op, resolved, task_id, created_at);
        assert(submitted_as(q, self.pending@, s, the_id, the_op, level, tid, created_at));
        s
    }

    /// Acts on an approval: the oldest held task with that identifier leaves
    /// the queue and is handed back to be run; an unknown identifier is
    /// answered with an error.
    pub fn handle_approve(&mut self, id: String, task_id: String) -> (s: Step)
        ensures
            final(self).config == old(self).config,
            final(self).agents == old(self).agents,
            approve_outcome(old(self).pending@, final(self).pending@, s, id@, task_id@),
    {
        match position(&self.pending, &task_id) {
            Some(pos) => {
                let task = self.pending.remove(pos);
                Step::Execute { id, task_id: task.task_id, operation: task.operation }
            },
            None => Step::Reply(not_found(id, task_id.as_str())),
        }
    }

    /// Acts on a denial: the oldest held task with that identifier leaves the
    /// queue without running; an unknown identifier is answered with an error.
    pub fn handle_deny(&mut self, id: String, task_id: String) -> (r: Response)
        ensures
            final(self).config == old(self).config,
            final(self).agents == old(self).agents,
            deny_outcome(old(self).pending@, final(self).pending@, r, id@, task_id@),
    {
        match position(&self.pending, &task_id) {
            Some(pos) => {
                let task = self.pending.remove(pos);
                ok_reply(id, ResponseData::Denied { task_id: task.task_id })
            },
            None => not_found(id, task_id.as_str()),
        }
    }

    /// Answers a status request; the daemon reports itself running for
    /// `uptime_secs` seconds.
    pub fn handle_status(&self, id: String, uptime_secs: u64) -> (r: Response)
        ensures
            status_reply(r, id@, uptime_secs),
    {
        ok_reply(id, ResponseData::Status { running: true, uptime_secs, tasks_pending: 0 })
    }

    /// Answers with a copy of every held task, oldest first.
    pub fn handle_pending(&self, id: String) -> (r: Response)
        ensures
            pending_reply(r, id@, self.pending@),
    {
        let n = self.pending.len();
        let mut tasks: Vec<PendingTask> = Vec::new();
        let mut i: usize = 0;
        while i < n
            invariant
                n == self.pending@.len(),
                i <= n,
                tasks@.len() == i,
                forall|k: int| 0 <= k < i ==> (#[trigger] tasks@[k])@ == self.pending@[k]@,
            decreases n - i,
        {
            let t = &self.pending[i];
            tasks.push(
                PendingTask {
                    task_id: t.task_id.clone(),
                    operation: t.operation.duplicate(),
                    level: t.level,
                    created_at: t.created_at,
                },
            );
            i += 1;
        }
        ok_reply(id, ResponseData::Pending { tasks })
    }

    /// Answers a log request; the audit log is not kept yet, which the one
    /// entry says.
    pub fn handle_logs(&self, id: String, _count: Option<usize>) -> (r: Response)
        ensures
            logs_reply(r, id@),
    {
        let mut entries: Vec<String> = Vec::new();
        entries.push(String::from_str("Audit logging not yet implemented"));
        assert(entries.deep_view() =~= seq!["Audit logging not yet implemented"@]);
        ok_reply(id, ResponseData::Logs { entries })
    }

    /// Answers a validation request with the operation's description and
    /// rating, without running or holding it.
    pub fn handle_validate(&self, id: String, op: Operation, resolved: &Option<String>) -> (r: Response)
        ensures
            validate_reply(r, id@, op, rating(self.config.security, op@, resolved_view(*resolved))),
    {
        let level = op.security_level(&self.config, resolved);
        let desc = op.describe();
        ok_reply(id, ResponseData::Validation { operation: desc, level })
    }

    /// The response once an operation has been run under `task_id`: the
    /// agent's success flag and output, or the error that stopped it.
    pub fn execution_reply(id: String, task_id: String, outcome: Result<AgentResult, String>) -> (r: Response)
        ensures
            match outcome {
                Ok(a) => is_ok_reply(r, id@) && (r.data matches Some(
                    ResponseData::Executed { task_id: t, success, output },
                ) && t == task_id && success == a.success && output == a.output),
                Err(e) => is_error_reply(r, id@, e@),
            },
    {
        match outcome {
            Ok(a) => ok_reply(
                id,
                ResponseData::Executed { task_id, success: a.success, output: a.output },
            ),
            Err(e) => error_reply(id, e),
        }
    }

    /// Acts on one request. `uptime_secs` is how long the daemon has run;
    /// `resolved` is the canonical form of the target path of the file
    /// operation the request carries, when there is one and it could be
    /// resolved.
    pub fn handle_request(&mut self, req: Request, uptime_secs: u64, resolved: &Option<String>) -> (s: Step)
        ensures
            final(self).config == old(self).config,
            final(self).agents == old(self).agents,
            request_outcome(
                old(self).pending@,
                final(self).pending@,
                s,
                req,
                old(self).config.security,
                resolved_view(*resolved),
                uptime_secs,
            ),
    {
        let id = req.id;
        match req.command {
            Command::Submit { operation } => self.handle_submit(id, operation, resolved),
            Command::Approve { task_id } => self.handle_approve(id, task_id),
            Command::Deny { task_id } => Step::Reply(self.handle_deny(id, task_id)),
            Command::Status => Step::Reply(self.handle_status(id, uptime_secs)),
            Command::Pending => Step::Reply(self.handle_pending(id)),
            Command::Logs { count } => Step::Reply(self.handle_logs(id, count)),
            Command::Validate { operation } => Step::Reply(
                self.handle_validate(id, operation, resolved),
            ),
            Command::Exec { .. } => Step::Reply(
                error_reply(id, String::from_str("Unsupported command: exec")),
            ),
        }
    }
}

/// Some held task has identifier `id` exactly when one of them is the oldest
/// such task.
proof fn lemma_some_match_has_first(q: Seq<PendingTask>, id: Seq<char>, i: int)
    requires
        0 <= i < q.len(),
        q[i].task_id@ == id,
    ensures
        exists|k: int| is_first_match(q, id, k),
    decreases i,
{
    if exists|j: int| 0 <= j < i && (#[trigger] q[j]).task_id@ == id {
        let j = choose|j: int| 0 <= j < i && (#[trigger] q[j]).task_id@ == id;
        lemma_some_match_has_first(q, id, j);
    } else {
        assert(is_first_match(q, id, i));
    }
}

/// Approving or denying a task identifier releases the oldest held task
/// with that identifier, and only it: the other tasks stay, in their order.
/// When no held task has the identifier, the queue is left as it was.
pub proof fn lemma_release_takes_oldest_match(q: Seq<PendingTask>, id: Seq<char>)
    ensures
        has_task(q, id) <==> find_task(q, id) is Some,
        find_task(q, id) matches Some(i) ==> {
            &&& is_first_match(q, id, i)
            &&& without_task(q, id) == q.subrange(0, i) + q.subrange(i + 1, q.len() as int)
            &&& without_task(q, id).len() + 1 == q.len()
        },
        !has_task(q, id) ==> without_task(q, id) == q,
{
    if has_task(q, id) {
        let i = choose|i: int| 0 <= i < q.len() && (#[trigger] q[i]).task_id@ == id;
        lemma_some_match_has_first(q, id, i);
    }
    if let Some(i) = find_task(q, id) {
        assert(q.remove(i) =~= q.subrange(0, i) + q.subrange(i + 1, q.len() as int));
    } else {
        if has_task(q, id) {
            assert(false);
        }
    }
}

/// Holding an operation and then denying it under its fresh identifier
/// leaves the queue as it was before the submission.
pub proof fn lemma_deny_undoes_hold(q: Seq<PendingTask>, task: PendingTask)
    requires
        !has_task(q, task.task_id@),
    ensures
        without_task(after_submit(q, SecurityLevel::Confirm, task), task.task_id@) == q,
{
    let q2 = q.push(task);
    let id = task.task_id@;
    assert(is_first_match(q2, id, q.len() as int)) by {
        assert forall|j: int| 0 <= j < q.len() implies (#[trigger] q2[j]).task_id@ != id by {
            assert(q2[j] == q[j]);
        }
    }
    let c = choose|k: int| is_first_match(q2, id, k);
    assert(c == q.len()) by {
        if c < q.len() {
            assert(q2[c] == q[c]);
        }
    }
    assert(q2.remove(q.len() as int) =~= q);
}

/// A released task cannot be released again unless another task with the
/// same identifier was held: once gone, approving or denying it is answered
/// with an error.
pub proof fn lemma_released_task_is_gone(q: Seq<PendingTask>, id: Seq<char>)
    requires
        forall|i: int, j: int|
            0 <= i < q.len() && 0 <= j < q.len() && (#[trigger] q[i]).task_id@ == id && (#[trigger] q[j]).task_id@
                == id ==> i == j,
    ensures
        !has_task(without_task(q, id), id),
        find_task(without_task(q, id), id) is None,
{
    lemma_release_takes_oldest_match(q, id);
    let q2 = without_task(q, id);
    if let Some(i) = find_task(q, id) {
        assert forall|k: int| 0 <= k < q2.len() implies (#[trigger] q2[k]).task_id@ != id by {
            if k < i {
                assert(q2[k] == q[k]);
            } else {
                assert(q2[k] == q[k + 1]);
            }
        }
    }
    lemma_release_takes_oldest_match(q2, id);
}

/// The pipeline of a submission: a refused operation is neither held nor
/// run; one rated to run at once is handed back to be run and not held;
/// one that needs approval is held, at the end of the queue, and not run.
pub proof fn lemma_submission_pipeline(
    q: Seq<PendingTask>,
    q2: Seq<PendingTask>,
    s: Step,
    id: Seq<char>,
    op: Operation,
    level: SecurityLevel,
)
    requires
        submit_outcome(q, q2, s, id, op, level),
    ensures
        s is Execute <==> level == SecurityLevel::Auto,
        level != SecurityLevel::Confirm ==> q2 == q,
        level == SecurityLevel::Confirm ==> q2.len() == q.len() + 1 && q2.drop_last() == q
            && q2.last().operation == op,
        level == SecurityLevel::Deny ==> (s matches Step::Reply(r) && r.status@ == "error"@),
        level == SecurityLevel::Confirm ==> (s matches Step::Reply(r) && r.status@ == "ok"@),
        level == SecurityLevel::Confirm ==> stamped_at(q2.last().task_id@, q2.last().created_at),
        level == SecurityLevel::Confirm ==> (s matches Step::Reply(r) && (r.data matches Some(
            ResponseData::Submit { task_id: t, .. },
        ) && t@ == q2.last().task_id@)),
{
    let (t, c) = choose|task_id: String, created_at: u64| submitted_as(q, q2, s, id, op, level, task_id, created_at);
    if level == SecurityLevel::Confirm {
        assert(q2.drop_last() =~= q);
    }
}

/// An operation is run only when its submission rated it to run at once,
/// or when it was held and its task is approved.
pub proof fn lemma_runs_only_cleared_operations(
    q: Seq<PendingTask>,
    q2: Seq<PendingTask>,
    s: Step,
    req: Request,
    sec: SecurityConfig,
    resolved: Option<Seq<char>>,
    uptime_secs: u64,
)
    requires
        request_outcome(q, q2, s, req, sec, resolved, uptime_secs),
        s is Execute,
    ensures
        (req.command matches Command::Submit { operation } && rating(sec, operation@, resolved)
            == SecurityLevel::Auto && s->operation == operation) || (req.command is Approve && exists|
            i: int,
        | 0 <= i < q.len() && (#[trigger] q[i]).operation == s->operation && q2 == q.remove(i)),
{
    match req.command {
        Command::Submit { operation } => {
            lemma_submission_pipeline(q, q2, s, req.id@, operation, rating(sec, operation@, resolved));
            let (t, c) = choose|task_id: String, created_at: u64| submitted_as(q, q2, s, req.id@, operation, rating(sec, operation@, resolved), task_id, created_at);
        },
        Command::Approve { task_id } => {
            if let Some(i) = find_task(q, task_id@) {
                assert(q[i].operation == s->operation);
            }
        },
        _ => {},
    }
}

/// Validating an operation reports the rating that a submission of the same
/// operation under the same policy acts on: refused exactly when the
/// submission is refused, and to be run at once exactly when the submission
/// runs it.
pub proof fn lemma_validation_predicts_submission(
    r: Response,
    level: SecurityLevel,
    q: Seq<PendingTask>,
    q2: Seq<PendingTask>,
    s: Step,
    id: Seq<char>,
    id2: Seq<char>,
    op: Operation,
    sec: SecurityConfig,
    resolved: Option<Seq<char>>,
)
    requires
        validate_reply(r, id, op, level),
        level == rating(sec, op@, resolved),
        submit_outcome(q, q2, s, id2, op, rating(sec, op@, resolved)),
    ensures
        r.data matches Some(ResponseData::Validation { level: l, .. }) && (l == SecurityLevel::Deny
            <==> (s matches Step::Reply(e) && e.status@ == "error"@)) && (l == SecurityLevel::Auto
            <==> s is Execute) && (l == SecurityLevel::Confirm <==> q2.len() == q.len() + 1),
{
    lemma_submission_pipeline(q, q2, s, id2, op, level);
    reveal_strlit("error");
    reveal_strlit("ok");
    assert("ok"@ != "error"@) by {
        assert("ok"@.len() != "error"@.len());
    }
}

/// Task identifiers made at different nanoseconds differ, so a clock that
/// moves forward between two submissions gives their tasks different
/// identifiers.
pub proof fn lemma_task_ids_distinct(n: nat, m: nat)
    requires
        n != m,
    ensures
        "task_"@ + stamp(n) != "task_"@ + stamp(m),
{
    let p = "task_"@;
    if p + stamp(n) == p + stamp(m) {
        assert(stamp(n) =~= (p + stamp(n)).subrange(p.len() as int, (p + stamp(n)).len() as int));
        assert(stamp(m) =~= (p + stamp(m)).subrange(p.len() as int, (p + stamp(m)).len() as int));
        lemma_stamp_injective(n, m);
    }
}

/// A task identifier records the second its clock reading fell in: two
/// identifiers made in different seconds differ.
pub proof fn lemma_stamped_ids_distinct(t1: Seq<char>, secs1: u64, t2: Seq<char>, secs2: u64)
    requires
        stamped_at(t1, secs1),
        stamped_at(t2, secs2),
        secs1 != secs2,
    ensures
        t1 != t2,
{
    let n1 = choose|n: nat| t1 == "task_"@ + stamp(n) && n / 1_000_000_000 == secs1;
    let n2 = choose|n: nat| t2 == "task_"@ + stamp(n) && n / 1_000_000_000 == secs2;
    assert(n1 != n2);
    lemma_task_ids_distinct(n1, n2);
}

/// Two operations held at different seconds are held under different task
/// identifiers, so approving the later one's identifier cannot release the
/// earlier one.
pub proof fn lemma_held_tasks_of_different_seconds_differ(
    q: Seq<PendingTask>,
    q2: Seq<PendingTask>,
    s: Step,
    id: Seq<char>,
    op: Operation,
    q3: Seq<PendingTask>,
    s2: Step,
    id2: Seq<char>,
    op2: Operation,
)
    requires
        submit_outcome(q, q2, s, id, op, SecurityLevel::Confirm),
        submit_outcome(q2, q3, s2, id2, op2, SecurityLevel::Confirm),
        q3[q2.len() - 1].created_at != q3.last().created_at,
    ensures
        q3[q2.len() - 1].task_id@ != q3.last().task_id@,
        q3[q2.len() - 1].operation == op,
        q3.last().operation == op2,
{
    lemma_submission_pipeline(q, q2, s, id, op, SecurityLevel::Confirm);
    lemma_submission_pipeline(q2, q3, s2, id2, op2, SecurityLevel::Confirm);
    assert(q3[q2.len() - 1] == q2.last());
    lemma_stamped_ids_distinct(
        q2.last().task_id@,
        q2.last().created_at,
        q3.last().task_id@,
        q3.last().created_at,
    );
}

/// Each agent takes exactly its own kind of operation: shell commands go to
/// the shell agent, git commands to the git agent and file reads, writes and
/// deletes to the file agent; no operation is taken by two agents.
pub proof fn lemma_each_kind_takes_its_own(op: Operation)
    ensures
        handles(AgentKind::Shell, op@) <==> op is Shell,
        handles(AgentKind::Git, op@) <==> op is Git,
        handles(AgentKind::File, op@) <==> (op is FileRead || op is FileWrite || op is FileDelete),
        !(handles(AgentKind::Shell, op@) && handles(AgentKind::Git, op@)),
        !(handles(AgentKind::Shell, op@) && handles(AgentKind::File, op@)),
        !(handles(AgentKind::Git, op@) && handles(AgentKind::File, op@)),
{
}

/// A daemon built by `Daemon::new` routes every operation to the agent of
/// its own kind.
pub proof fn lemma_standard_routing(op: Operation)
    ensures
        first_handler(seq![AgentKind::Shell, AgentKind::File, AgentKind::Git], op) == Some(
            match op {
                Operation::Shell { .. } => AgentKind::Shell,
                Operation::Git { .. } => AgentKind::Git,
                _ => AgentKind::File,
            },
        ),
{
    let agents = seq![AgentKind::Shell, AgentKind::File, AgentKind::Git];
    let k: int = match op {
        Operation::Shell { .. } => 0,
        Operation::Git { .. } => 2,
        _ => 1,
    };
    assert(handles(agents[k], op@));
    let c = choose|i: int|
        0 <= i < agents.len() && handles(#[trigger] agents[i], op@) && forall|j: int|
            0 <= j < i ==> !handles(#[trigger] agents[j], op@);
    assert(0 <= k < agents.len() && handles(agents[k], op@) && forall|j: int|
        0 <= j < k ==> !handles(#[trigger] agents[j], op@));
    assert(c == k) by {
        if c < k {
            assert(!handles(agents[c], op@));
        } else if c > k {
            assert(handles(agents[k], op@));
        }
    }
}

} // verus!
