//! Operations that clients ask the daemon to carry out, and the policy that
//! rates each one as run-at-once, needs-approval, or refused.

use vstd::prelude::*;
use vstd::string::*;
use crate::config::{Config, SecurityConfig, SecurityLevel};
use crate::text::{copy_strings, joined, occurs_in, join_strings, str_contains, str_starts_with};

verus! {

/// One operation a client asks for.
#[derive(Debug, Clone, PartialEq)]
pub enum Operation {
    Shell { command: String, args: Vec<String> },
    FileRead { path: String },
    FileWrite { path: String, content: String },
    FileDelete { path: String },
    Git { command: String, repo_path: String },
}

/// An operation with its strings taken as character sequences.
pub enum OperationView {
    Shell { command: Seq<char>, args: Seq<Seq<char>> },
    FileRead { path: Seq<char> },
    FileWrite { path: Seq<char>, content: Seq<char> },
    FileDelete { path: Seq<char> },
    Git { command: Seq<char>, repo_path: Seq<char> },
}

impl View for Operation {
    type V = OperationView;

    open spec fn view(&self) -> OperationView {
        match self {
            Operation::Shell { command, args } => OperationView::Shell {
                command: command@,
                args: args.deep_view(),
            },
            Operation::FileRead { path } => OperationView::FileRead { path: path@ },
            Operation::FileWrite { path, content } => OperationView::FileWrite {
                path: path@,
                content: content@,
            },
            Operation::FileDelete { path } => OperationView::FileDelete { path: path@ },
            Operation::Git { command, repo_path } => OperationView::Git {
                command: command@,
                repo_path: repo_path@,
            },
        }
    }
}

/// Whether the operation works on a file.
pub open spec fn is_file_op(op: OperationView) -> bool {
    op is FileRead || op is FileWrite || op is FileDelete
}

/// The agent that carries out each kind of operation.
pub open spec fn agent_name_of(op: OperationView) -> Seq<char> {
    match op {
        OperationView::Shell { .. } => "shell"@,
        OperationView::Git { .. } => "git"@,
        _ => "file"@,
    }
}

/// The one-line description of an operation used in replies and logs.
pub open spec fn description(op: OperationView) -> Seq<char> {
    match op {
        OperationView::Shell { command, args } => "shell: "@ + command + " "@ + joined(args, " "@),
        OperationView::FileRead { path } => "file-read: "@ + path,
        OperationView::FileWrite { path, .. } => "file-write: "@ + path,
        OperationView::FileDelete { path } => "file-delete: "@ + path,
        OperationView::Git { command, repo_path } => "git: "@ + command + " (repo: "@ + repo_path
            + ")"@,
    }
}

/// The path a file operation touches; empty for other operations.
pub open spec fn target_of(op: OperationView) -> Seq<char> {
    match op {
        OperationView::FileRead { path } => path,
        OperationView::FileWrite { path, .. } => path,
        OperationView::FileDelete { path } => path,
        _ => Seq::empty(),
    }
}

/// The command line a shell operation runs: the command, a space, and the
/// arguments separated by single spaces.
pub open spec fn shell_line(command: Seq<char>, args: Seq<Seq<char>>) -> Seq<char> {
    command + " "@ + joined(args, " "@)
}

/// Whether some refused pattern matches a shell command: it occurs in the
/// command line, or it is the command itself.
pub open spec fn shell_refused(denied: Seq<Seq<char>>, command: Seq<char>, args: Seq<Seq<char>>) -> bool {
    exists|i: int|
        0 <= i < denied.len() && (occurs_in(#[trigger] denied[i], shell_line(command, args))
            || denied[i] == command)
}

/// Git commands that rewrite or discard history or files.
pub open spec fn git_dangerous(command: Seq<char>) -> bool {
    ||| occurs_in("push --force"@, command)
    ||| occurs_in("hard reset"@, command)
    ||| occurs_in("rebase --onto"@, command)
    ||| occurs_in("clean -fd"@, command)
}

/// Whether a path lies under one of the allowed prefixes.
pub open spec fn path_allowed(allowed: Seq<Seq<char>>, path: Seq<char>) -> bool {
    exists|i: int| 0 <= i < allowed.len() && #[trigger] allowed[i].is_prefix_of(path)
}

/// The rating of a file path. An empty path gets the default level; any
/// other is checked in its resolved form when it could be resolved (the
/// target exists), else as written, and is refused unless it lies under an
/// allowed prefix.
pub open spec fn path_level(sec: SecurityConfig, path: Seq<char>, resolved: Option<Seq<char>>) -> SecurityLevel {
    if path.len() == 0 {
        sec.default_level
    } else {
        let checked = match resolved {
            Some(r) => r,
            None => path,
        };
        if path_allowed(sec.allowed_paths.deep_view(), checked) {
            sec.default_level
        } else {
            SecurityLevel::Deny
        }
    }
}

/// The rating of an operation under a policy. Shell commands are refused
/// when a refused pattern matches and otherwise get the default level; file
/// operations are rated by their path; git commands need approval when they
/// are dangerous and run at once otherwise.
pub open spec fn rating(sec: SecurityConfig, op: OperationView, resolved: Option<Seq<char>>) -> SecurityLevel {
    match op {
        OperationView::Shell { command, args } => if shell_refused(
            sec.denied_commands.deep_view(),
            command,
            args,
        ) {
            SecurityLevel::Deny
        } else {
            sec.default_level
        },
        OperationView::Git { command, .. } => if git_dangerous(command) {
            SecurityLevel::Confirm
        } else {
            SecurityLevel::Auto
        },
        _ => path_level(sec, target_of(op), resolved),
    }
}

/// A resolved path taken as a character sequence.
pub open spec fn resolved_view(resolved: Option<String>) -> Option<Seq<char>> {
    match resolved {
        Some(r) => Some(r@),
        None => None,
    }
}

/// Whether a git command matches one of the dangerous patterns.
fn is_dangerous_git(command: &str) -> (b: bool)
    ensures
        b == git_dangerous(command@),
{
    str_contains(command, "push --force") || str_contains(command, "hard reset") || str_contains(
        command,
        "rebase --onto",
    ) || str_contains(command, "clean -fd")
}

impl Operation {
    /// A fresh operation equal to this one.
    pub fn duplicate(&self) -> (r: Operation)
        ensures
            r@ == self@,
    {
        match self {
            Operation::Shell { command, args } => Operation::Shell {
                command: command.clone(),
                args: copy_strings(args),
            },
            Operation::FileRead { path } => Operation::FileRead { path: path.clone() },
            Operation::FileWrite { path, content } => Operation::FileWrite {
                path: path.clone(),
                content: content.clone(),
            },
            Operation::FileDelete { path } => Operation::FileDelete { path: path.clone() },
            Operation::Git { command, repo_path } => Operation::Git {
                command: command.clone(),
                repo_path: repo_path.clone(),
            },
        }
    }

    /// The name of the agent that carries out this operation.
    pub fn agent_name(&self) -> (s: &'static str)
        ensures
            s@ == agent_name_of(self@),
    {
        match self {
            Operation::Shell { .. } => "shell",
            Operation::FileRead { .. } | Operation::FileWrite { .. } | Operation::FileDelete {
                ..
            } => "file",
            Operation::Git { .. } => "git",
        }
    }

    /// A one-line, human-readable description.
    pub fn describe(&self) -> (s: String)
        ensures
            s@ == description(self@),
    {
        match self {
            Operation::Shell { command, args } => {
                let mut s = String::from_str("shell: ");
                s.append(command.as_str());
                s.append(" ");
                let rest = join_strings(args, " ");
                s.append(rest.as_str());
                s
            },
            Operation::FileRead { path } => String::from_str("file-read: ").concat(path.as_str()),
            Operation::FileWrite { path, .. } => String::from_str("file-write: ").concat(
                path.as_str(),
            ),
            Operation::FileDelete { path } => String::from_str("file-delete: ").concat(
                path.as_str(),
            ),
            Operation::Git { command, repo_path } => {
                let mut s = String::from_str("git: ");
                s.append(command.as_str());
                s.append(" (repo: ");
                s.append(repo_path.as_str());
                s.append(")");
                s
            },
        }
    }

    /// The path a file operation touches; empty for other operations.
    pub fn target_path(&self) -> (p: &str)
        ensures
            p@ == target_of(self@),
    {
        proof {
            reveal_strlit("");
        }
        match self {
            Operation::FileRead { path } => path.as_str(),
            Operation::FileWrite { path, .. } => path.as_str(),
            Operation::FileDelete { path } => path.as_str(),
            _ => "",
        }
    }

    /// Rates a file path under the policy in `config`; `resolved` is the
    /// canonical form of `path` when it could be resolved.
    #[verifier::loop_isolation(false)]
    pub fn path_security_level(path: &str, resolved: &Option<String>, config: &Config) -> (l: SecurityLevel)
        ensures
            l == path_level(config.security, path@, resolved_view(*resolved)),
    {
        if path.unicode_len() == 0 {
            return config.security.default_level;
        }
        let checked: &str = match resolved {
            Some(r) => r.as_str(),
            None => path,
        };
        let allowed = &config.security.allowed_paths;
        let ghost prefixes = allowed.deep_view();
        let mut i: usize = 0;
        while i < allowed.len()
            invariant
                prefixes == allowed.deep_view(),
                prefixes.len() == allowed@.len(),
                i <= allowed@.len(),
                forall|k: int| 0 <= k < i ==> !(#[trigger] prefixes[k]).is_prefix_of(checked@),
            decreases allowed@.len() - i,
        {
            assert(prefixes[i as int] == allowed@[i as int]@);
            if str_starts_with(checked, allowed[i].as_str()) {
                assert(prefixes[i as int].is_prefix_of(checked@));
                return config.security.default_level;
            }
            i += 1;
        }
        SecurityLevel::Deny
    }

    /// Rates this operation under the policy in `config`. For file
    /// operations `resolved` is the canonical form of the target path when it
    /// could be resolved; it is ignored for other operations.
    #[verifier::loop_isolation(false)]
    pub fn security_level(&self, config: &Config, resolved: &Option<String>) -> (l: SecurityLevel)
        ensures
            l == rating(config.security, self@, resolved_view(*resolved)),
    {
        match self {
            Operation::Shell { command, args } => {
                let mut line = command.clone();
                line.append(" ");
                let rest = join_strings(args, " ");
                line.append(rest.as_str());
                let denied = &config.security.denied_commands;
                let ghost patterns = denied.deep_view();
                let mut i: usize = 0;
                while i < denied.len()
                    invariant
                        patterns == denied.deep_view(),
                        patterns.len() == denied@.len(),
                        i <= denied@.len(),
                        line@ == shell_line(command@, args.deep_view()),
                        forall|k: int|
                            0 <= k < i ==> !(occurs_in(#[trigger] patterns[k], line@) || patterns[k]
                                == command@),
                    decreases denied@.len() - i,
                {
                    assert(patterns[i as int] == denied@[i as int]@);
                    if str_contains(line.as_str(), denied[i].as_str()) || *command == denied[i] {
                        assert(occurs_in(patterns[i as int], line@) || patterns[i as int]
                            == command@);
                        return SecurityLevel::Deny;
                    }
                    i += 1;
                }
                config.security.default_level
            },
            Operation::Git { command, .. } => {
                if is_dangerous_git(command.as_str()) {
                    SecurityLevel::Confirm
                } else {
                    SecurityLevel::Auto
                }
            },
            _ => Self::path_security_level(self.target_path(), resolved, config),
        }
    }
}

/// A policy with the same default level that refuses at least the patterns
/// of another and allows at most its path prefixes refuses every operation
/// the other refuses; any other rating it gives is the other's.
pub proof fn lemma_stricter_policy_refuses_more(
    loose: SecurityConfig,
    strict: SecurityConfig,
    op: OperationView,
    resolved: Option<Seq<char>>,
)
    requires
        strict.default_level == loose.default_level,
        forall|p: Seq<char>|
            loose.denied_commands.deep_view().contains(p) ==> strict.denied_commands.deep_view().contains(p),
        forall|p: Seq<char>|
            strict.allowed_paths.deep_view().contains(p) ==> loose.allowed_paths.deep_view().contains(p),
    ensures
        rating(loose, op, resolved) == SecurityLevel::Deny ==> rating(strict, op, resolved)
            == SecurityLevel::Deny,
        rating(strict, op, resolved) == rating(loose, op, resolved) || rating(strict, op, resolved)
            == SecurityLevel::Deny,
{
    let ld = loose.denied_commands.deep_view();
    let sd = strict.denied_commands.deep_view();
    let la = loose.allowed_paths.deep_view();
    let sa = strict.allowed_paths.deep_view();
    match op {
        OperationView::Shell { command, args } => {
            if shell_refused(ld, command, args) {
                let i = choose|i: int|
                    0 <= i < ld.len() && (occurs_in(#[trigger] ld[i], shell_line(command, args))
                        || ld[i] == command);
                assert(ld.contains(ld[i]));
                assert(sd.contains(ld[i]));
                let j = choose|j: int| 0 <= j < sd.len() && sd[j] == ld[i];
                assert(occurs_in(sd[j], shell_line(command, args)) || sd[j] == command);
            }
        },
        OperationView::Git { .. } => {},
        _ => {
            let path = target_of(op);
            let checked = match resolved {
                Some(r) => r,
                None => path,
            };
            if path.len() > 0 && path_allowed(sa, checked) {
                let i = choose|i: int| 0 <= i < sa.len() && (#[trigger] sa[i]).is_prefix_of(checked);
                assert(sa.contains(sa[i]));
                assert(la.contains(sa[i]));
                let j = choose|j: int| 0 <= j < la.len() && la[j] == sa[i];
                assert(la[j].is_prefix_of(checked));
            }
        },
    }
}

/// Git commands are never refused, whatever the policy: dangerous ones need
/// approval and all others run at once.
pub proof fn lemma_git_never_refused(sec: SecurityConfig, command: Seq<char>, repo_path: Seq<char>, resolved: Option<Seq<char>>)
    ensures
        rating(sec, OperationView::Git { command, repo_path }, resolved) != SecurityLevel::Deny,
        rating(sec, OperationView::Git { command, repo_path }, resolved) == (if git_dangerous(
            command,
        ) {
            SecurityLevel::Confirm
        } else {
            SecurityLevel::Auto
        }),
{
}

/// A shell command whose name is itself on the refused list is refused,
/// whatever its arguments and the default level.
pub proof fn lemma_named_command_refused(
    sec: SecurityConfig,
    command: Seq<char>,
    args: Seq<Seq<char>>,
    resolved: Option<Seq<char>>,
)
    requires
        sec.denied_commands.deep_view().contains(command),
    ensures
        rating(sec, OperationView::Shell { command, args }, resolved) == SecurityLevel::Deny,
{
    let d = sec.denied_commands.deep_view();
    let i = choose|i: int| 0 <= i < d.len() && d[i] == command;
    assert(occurs_in(d[i], shell_line(command, args)) || d[i] == command);
}

/// Shell and file operations are either refused or given the default level;
/// the policy never raises them to run at once on its own.
pub proof fn lemma_rating_is_default_or_refusal(sec: SecurityConfig, op: OperationView, resolved: Option<Seq<char>>)
    requires
        !(op is Git),
    ensures
        rating(sec, op, resolved) == sec.default_level || rating(sec, op, resolved)
            == SecurityLevel::Deny,
{
}

/// A file operation on a non-empty path is refused when the policy allows
/// no path prefix at all.
pub proof fn lemma_no_allowed_paths_refuses_files(sec: SecurityConfig, op: OperationView, resolved: Option<Seq<char>>)
    requires
        is_file_op(op),
        target_of(op).len() > 0,
        sec.allowed_paths@.len() == 0,
    ensures
        rating(sec, op, resolved) == SecurityLevel::Deny,
{
}

/// Whether refused pattern `i` of `d` turns up in `line` at position `p`,
/// character for character.
pub open spec fn pattern_at(d: Seq<Seq<char>>, i: int, line: Seq<char>, p: int) -> bool {
    0 <= i < d.len() && 0 <= p && p + d[i].len() <= line.len() && line.subrange(p, p + d[i].len())
        == d[i]
}

/// A shell command is refused exactly when one of the refused patterns turns
/// up, character for character, somewhere in its command line (the command,
/// a space, then the arguments separated by single spaces), or is the
/// command itself. Every other shell command gets the default level. So a
/// command is never refused merely because it is part of a longer pattern.
pub proof fn lemma_shell_refusal_exact(
    sec: SecurityConfig,
    command: Seq<char>,
    args: Seq<Seq<char>>,
    resolved: Option<Seq<char>>,
)
    ensures
        ({
            let d = sec.denied_commands.deep_view();
            let line = command + " "@ + joined(args, " "@);
            let hit = (exists|i: int, p: int| #[trigger] pattern_at(d, i, line, p)) || (exists|i: int|
                0 <= i < d.len() && #[trigger] d[i] == command);
            rating(sec, OperationView::Shell { command, args }, resolved) == if hit {
                SecurityLevel::Deny
            } else {
                sec.default_level
            }
        }),
{
    let d = sec.denied_commands.deep_view();
    let line = command + " "@ + joined(args, " "@);
    assert(line == shell_line(command, args));
    if shell_refused(d, command, args) {
        let i = choose|i: int|
            0 <= i < d.len() && (occurs_in(#[trigger] d[i], shell_line(command, args)) || d[i]
                == command);
        if occurs_in(d[i], line) {
            let p = choose|p: int|
                0 <= p && p + d[i].len() <= line.len() && #[trigger] line.subrange(p, p + d[i].len())
                    == d[i];
            assert(pattern_at(d, i, line, p));
        } else {
            assert(d[i] == command);
        }
    } else {
        assert forall|i: int, p: int| !#[trigger] pattern_at(d, i, line, p) by {
            if pattern_at(d, i, line, p) {
                assert(occurs_in(d[i], line));
            }
        }
        assert forall|i: int| 0 <= i < d.len() implies #[trigger] d[i] != command by {
            assert(!(occurs_in(d[i], shell_line(command, args)) || d[i] == command));
        }
    }
}

/// Refused patterns that are longer than a shell command's whole command
/// line, and are not the command itself, leave it at the default level.
pub proof fn lemma_longer_patterns_do_not_refuse(
    sec: SecurityConfig,
    command: Seq<char>,
    args: Seq<Seq<char>>,
    resolved: Option<Seq<char>>,
)
    requires
        forall|i: int|
            0 <= i < sec.denied_commands@.len() ==> (#[trigger] sec.denied_commands@[i])@.len() > (
            command + " "@ + joined(args, " "@)).len(),
    ensures
        rating(sec, OperationView::Shell { command, args }, resolved) == sec.default_level,
{
    lemma_shell_refusal_exact(sec, command, args, resolved);
    let d = sec.denied_commands.deep_view();
    let line = command + " "@ + joined(args, " "@);
    assert forall|i: int, p: int| !#[trigger] pattern_at(d, i, line, p) by {
        if 0 <= i < d.len() {
            assert(d[i] == sec.denied_commands@[i]@);
        }
    }
    assert forall|i: int| 0 <= i < d.len() implies #[trigger] d[i] != command by {
        assert(d[i] == sec.denied_commands@[i]@);
        assert(line.len() >= command.len());
    }
}

} // verus!
