use opagent_core::agents::file::{FileAgent, FileRequest};
use opagent_core::agents::git::GitAgent;
use opagent_core::agents::shell::ShellAgent;
use opagent_core::agents::{AgentKind, AgentResult};
use opagent_core::config::{
    default_allowed_paths, default_level, default_log_level, default_model, default_socket_path,
    default_socket_perms, default_temperature_bits, default_true, Config, LlmConfig, LlmProvider,
    SecurityLevel,
};
use opagent_core::daemon::{gen_task_id, task_id_for, Daemon, Step};
use opagent_core::message::{uuid, Command, Request, ResponseData};
use opagent_core::security::Operation;
use opagent_core::text::{hex16, join_strings, split_words, str_contains, str_starts_with};

fn shell(command: &str, args: &[&str]) -> Operation {
    Operation::Shell {
        command: command.to_string(),
        args: args.iter().map(|a| a.to_string()).collect(),
    }
}

fn request(id: &str, command: Command) -> Request {
    Request { id: id.to_string(), command }
}

#[test]
fn describe_each_kind() {
    assert_eq!(shell("ls", &["-l", "/tmp"]).describe(), "shell: ls -l /tmp");
    assert_eq!(shell("whoami", &[]).describe(), "shell: whoami ");
    assert_eq!(Operation::FileRead { path: "/a".into() }.describe(), "file-read: /a");
    assert_eq!(
        Operation::FileWrite { path: "/b".into(), content: "x".into() }.describe(),
        "file-write: /b"
    );
    assert_eq!(Operation::FileDelete { path: "/c".into() }.describe(), "file-delete: /c");
    assert_eq!(
        Operation::Git { command: "status".into(), repo_path: "/r".into() }.describe(),
        "git: status (repo: /r)"
    );
}

#[test]
fn target_path_of_each_kind() {
    assert_eq!(Operation::FileWrite { path: "/b".into(), content: "x".into() }.target_path(), "/b");
    assert_eq!(shell("ls", &[]).target_path(), "");
}

#[test]
fn shell_pattern_in_arguments_is_refused() {
    let mut config = Config::default();
    config.security.default_level = SecurityLevel::Auto;
    config.security.denied_commands = vec!["mkfs".into()];
    assert_eq!(shell("sudo", &["mkfs", "/dev/sda"]).security_level(&config, &None), SecurityLevel::Deny);
    assert_eq!(shell("echo", &["hi"]).security_level(&config, &None), SecurityLevel::Auto);
}

#[test]
fn empty_denied_pattern_refuses_everything() {
    let mut config = Config::default();
    config.security.denied_commands = vec!["".into()];
    assert_eq!(shell("true", &[]).security_level(&config, &None), SecurityLevel::Deny);
}

#[test]
fn named_command_is_refused() {
    let mut config = Config::default();
    config.security.denied_commands = vec!["dd".into()];
    assert_eq!(shell("dd", &["if=/dev/zero"]).security_level(&config, &None), SecurityLevel::Deny);
}

#[test]
fn git_dangerous_patterns() {
    let config = Config::default();
    for c in ["reset hard reset", "rebase --onto main", "clean -fdx", "push --force"] {
        let op = Operation::Git { command: c.into(), repo_path: "/r".into() };
        assert_eq!(op.security_level(&config, &None), SecurityLevel::Confirm);
    }
    let op = Operation::Git { command: "push origin".into(), repo_path: "/r".into() };
    assert_eq!(op.security_level(&config, &None), SecurityLevel::Auto);
}

#[test]
fn git_is_never_refused_even_under_strict_policy() {
    let mut config = Config::default();
    config.security.denied_commands = vec!["".into()];
    config.security.allowed_paths = vec![];
    config.security.default_level = SecurityLevel::Deny;
    let op = Operation::Git { command: "status".into(), repo_path: "/r".into() };
    assert_eq!(op.security_level(&config, &None), SecurityLevel::Auto);
}

#[test]
fn file_paths_use_resolved_form() {
    let config = Config::default();
    let op = Operation::FileRead { path: "/home/../etc/passwd".into() };
    assert_eq!(op.security_level(&config, &None), SecurityLevel::Confirm);
    assert_eq!(op.security_level(&config, &Some("/etc/passwd".into())), SecurityLevel::Deny);
    let empty = Operation::FileDelete { path: "".into() };
    assert_eq!(empty.security_level(&config, &None), SecurityLevel::Confirm);
}

#[test]
fn no_allowed_paths_refuses_files() {
    let mut config = Config::default();
    config.security.allowed_paths = vec![];
    let op = Operation::FileWrite { path: "/tmp/x".into(), content: "".into() };
    assert_eq!(op.security_level(&config, &None), SecurityLevel::Deny);
}

#[test]
fn path_security_level_direct() {
    let config = Config::default();
    assert_eq!(Operation::path_security_level("/var/tmp/a", &None, &config), SecurityLevel::Confirm);
    assert_eq!(Operation::path_security_level("/var/log", &None, &config), SecurityLevel::Deny);
}

#[test]
fn stricter_policy_refuses_more_example() {
    let loose = Config::default();
    let mut strict = Config::default();
    strict.security.denied_commands = vec!["rm".into()];
    let op = shell("rm", &["x"]);
    assert_eq!(op.security_level(&loose, &None), SecurityLevel::Confirm);
    assert_eq!(op.security_level(&strict, &None), SecurityLevel::Deny);
}

#[test]
fn defaults_exact() {
    assert_eq!(default_level(), SecurityLevel::Confirm);
    assert_eq!(default_socket_path(), "/run/opagentd/opagentd.sock");
    assert_eq!(default_socket_perms(), 0o660);
    assert_eq!(default_log_level(), "info");
    assert_eq!(default_allowed_paths(), vec!["/home", "/tmp", "/var/tmp"]);
    assert!(default_true());
    assert_eq!(default_model(), "deepseek-chat");
    assert_eq!(f32::from_bits(default_temperature_bits()), 0.7f32);
    let c = Config::default();
    assert_eq!(c.socket.path, "/run/opagentd/opagentd.sock");
    assert_eq!(c.logging.level, "info");
    assert!(c.logging.audit_log.is_none());
    assert_eq!(c.llm.provider, LlmProvider::Deepseek);
    assert!(c.llm.enabled);
    assert!(c.security.denied_commands.is_empty());
    assert_eq!(Config::default_paths(), vec!["/etc/opagentd/config.toml", "./config/opagentd.toml"]);
}

#[test]
fn load_or_default_takes_first_loaded() {
    let mut a = Config::default();
    a.socket.path = "/a".into();
    let mut b = Config::default();
    b.socket.path = "/b".into();
    let chosen = Config::load_or_default(vec![None, Some(a), Some(b)]);
    assert_eq!(chosen.socket.path, "/a");
    let fallback = Config::load_or_default(vec![None, None]);
    assert_eq!(fallback.socket.path, "/run/opagentd/opagentd.sock");
}

#[test]
fn provider_urls_and_keys() {
    assert_eq!(LlmProvider::Deepseek.default_base_url(), "https://api.deepseek.com");
    assert_eq!(LlmProvider::OpenAI.default_base_url(), "https://api.openai.com/v1");
    assert_eq!(LlmProvider::Ollama.default_base_url(), "http://localhost:11434");
    assert_eq!(LlmProvider::Custom.default_base_url(), "");
    assert_eq!(LlmProvider::Deepseek.api_key_variable(), Some("DEEPSEEK_API_KEY"));
    assert_eq!(LlmProvider::OpenAI.api_key_variable(), Some("OPENAI_API_KEY"));
    assert_eq!(LlmProvider::Ollama.api_key_variable(), None);
    assert_eq!(LlmProvider::Custom.api_key_variable(), Some("OPAGENTD_API_KEY"));
}

#[test]
fn llm_endpoint_and_key_resolution() {
    let mut c = LlmConfig::default();
    assert_eq!(c.base_url_or_default(), "https://api.deepseek.com");
    c.base_url = Some("http://x".into());
    assert_eq!(c.base_url_or_default(), "http://x");

    assert_eq!(c.resolve_api_key(Some("env".into())), Some("env".to_string()));
    assert_eq!(c.resolve_api_key(None), None);
    c.api_key = Some("".into());
    assert_eq!(c.resolve_api_key(Some("env".into())), Some("env".to_string()));
    c.api_key = Some("conf".into());
    assert_eq!(c.resolve_api_key(Some("env".into())), Some("conf".to_string()));
    assert_eq!(c.redacted_api_key(), Some("***"));

    let mut o = LlmConfig::default();
    o.provider = LlmProvider::Ollama;
    assert_eq!(o.resolve_api_key(Some("env".into())), None);
    assert_eq!(o.redacted_api_key(), None);
}

#[test]
fn text_helpers() {
    assert!(str_contains("rm -rf /", "-rf"));
    assert!(str_contains("abc", ""));
    assert!(!str_contains("ab", "abc"));
    assert!(!str_contains("abc", "ac"));
    assert!(str_starts_with("/home/u", "/home"));
    assert!(!str_starts_with("/hom", "/home"));
    assert_eq!(join_strings(&vec!["a".into(), "b".into(), "c".into()], ", "), "a, b, c");
    assert_eq!(join_strings(&vec![], " "), "");
    assert_eq!(split_words("  push\t--force \n origin  "), vec!["push", "--force", "origin"]);
    assert_eq!(split_words("a\u{3000}b\u{a0}c"), vec!["a", "b", "c"]);
    assert!(split_words("   ").is_empty());
}

#[test]
fn hex_and_identifiers() {
    assert_eq!(hex16(0), "0000000000000000");
    assert_eq!(hex16(0xabc), "0000000000000abc");
    assert_eq!(hex16(0x1_0000_0000_0000_0000), "10000000000000000");
    assert_eq!(task_id_for(255), "task_00000000000000ff");
    let t = gen_task_id();
    assert!(t.starts_with("task_"));
    assert!(t.len() >= 21);
    assert!(t[5..].chars().all(|c| c.is_ascii_hexdigit() && !c.is_ascii_uppercase()));
    let u = uuid();
    assert!(u.len() >= 16);
    assert!(u.chars().all(|c| c.is_ascii_hexdigit() && !c.is_ascii_uppercase()));
}

#[test]
fn agent_decisions() {
    let op = shell("ls", &["-a"]);
    let git = Operation::Git { command: "log  --oneline".into(), repo_path: "/r".into() };
    let read = Operation::FileRead { path: "/f".into() };

    assert_eq!(ShellAgent.name(), "shell");
    assert!(ShellAgent.can_handle(&op));
    assert!(!ShellAgent.can_handle(&git));
    let (c, a) = ShellAgent.command_line(&op).unwrap();
    assert_eq!(c, "ls");
    assert_eq!(a, &vec!["-a".to_string()]);
    assert_eq!(ShellAgent.command_line(&git).unwrap_err(), "Operation is not a Shell variant");
    assert_eq!(ShellAgent::spawn_failed("not found"), "Failed to spawn process: not found");
    assert_eq!(GitAgent::spawn_failed("no such dir"), "Failed to execute git: no such dir");

    assert_eq!(GitAgent.name(), "git");
    let (args, dir) = GitAgent.invocation(&git).unwrap();
    assert_eq!(args, vec!["log", "--oneline"]);
    assert_eq!(dir, "/r");
    assert_eq!(GitAgent.invocation(&op).unwrap_err(), "Operation is not a Git variant");

    assert_eq!(FileAgent.name(), "file");
    assert!(FileAgent.can_handle(&read));
    match FileAgent.request(&read).unwrap() {
        FileRequest::Read { path } => assert_eq!(path, "/f"),
        _ => panic!("wrong request"),
    }
    assert_eq!(FileAgent.request(&op).unwrap_err(), "Operation is not a File variant");

    let ok = FileAgent::read_finished("/f", Ok("data".into())).unwrap();
    assert!(ok.success);
    assert_eq!(ok.output, "data");
    assert_eq!(
        FileAgent::read_finished("/f", Err("gone".into())).unwrap_err(),
        "Failed to read /f: gone"
    );
    assert_eq!(FileAgent::write_finished("/f", Ok(())).unwrap().output, "ok");
    assert_eq!(
        FileAgent::write_finished("/f", Err("ro".into())).unwrap_err(),
        "Failed to write /f: ro"
    );
    assert_eq!(FileAgent::delete_finished("/f", Ok(())).unwrap().output, "deleted");
    assert_eq!(
        FileAgent::delete_finished("/f", Err("no".into())).unwrap_err(),
        "Failed to delete /f: no"
    );
    assert_eq!(FileAgent::parent_dir_failed("denied"), "Failed to create parent dir: denied");

    let good = AgentResult::from_process_output(true, "out".into(), "err".into());
    assert_eq!(good.output, "out");
    assert!(good.error.is_none());
    let bad = AgentResult::from_process_output(false, "out".into(), "err".into());
    assert_eq!(bad.output, "err");
    assert_eq!(bad.error, Some("err".to_string()));

    assert_eq!(AgentKind::Git.name(), "git");
    assert!(AgentKind::File.can_handle(&read));
    assert!(!AgentKind::File.can_handle(&git));
}

#[test]
fn daemon_routes_to_first_agent() {
    let d = Daemon::new(Config::default());
    assert_eq!(d.find_agent(&shell("ls", &[])), Some(AgentKind::Shell));
    assert_eq!(d.find_agent(&Operation::FileDelete { path: "/x".into() }), Some(AgentKind::File));
    let only_shell = Daemon { config: Config::default(), agents: vec![AgentKind::Shell], pending: vec![] };
    assert_eq!(only_shell.find_agent(&Operation::FileDelete { path: "/x".into() }), None);
}

#[test]
fn submit_hold_approve_runs_queued_operation() {
    let mut d = Daemon::new(Config::default());
    let step = d.submit_with("r1".into(), shell("ls", &[]), &None, "task_1".into(), 7);
    match step {
        Step::Reply(r) => {
            assert_eq!(r.id, "r1");
            assert_eq!(r.status, "ok");
            match r.data {
                Some(ResponseData::Submit { task_id, level, action }) => {
                    assert_eq!(task_id, "task_1");
                    assert_eq!(level, SecurityLevel::Confirm);
                    assert_eq!(action, "Awaiting approval");
                }
                _ => panic!("wrong data"),
            }
        }
        _ => panic!("held operation must not run"),
    }
    assert_eq!(d.pending.len(), 1);
    assert_eq!(d.pending[0].created_at, 7);

    match d.handle_approve("r2".into(), "task_1".into()) {
        Step::Execute { id, task_id, operation } => {
            assert_eq!(id, "r2");
            assert_eq!(task_id, "task_1");
            assert_eq!(operation.describe(), "shell: ls ");
        }
        _ => panic!("approved task must run"),
    }
    assert!(d.pending.is_empty());

    match d.handle_approve("r3".into(), "task_1".into()) {
        Step::Reply(r) => {
            assert_eq!(r.status, "error");
            assert_eq!(r.message, Some("Task task_1 not found in pending queue".to_string()));
        }
        _ => panic!("released task cannot run twice"),
    }
}

#[test]
fn deny_undoes_hold() {
    let mut d = Daemon::new(Config::default());
    d.submit_with("a".into(), shell("ls", &[]), &None, "task_x".into(), 1);
    d.submit_with("b".into(), shell("pwd", &[]), &None, "task_y".into(), 2);
    let r = d.handle_deny("c".into(), "task_x".into());
    assert_eq!(r.status, "ok");
    match r.data {
        Some(ResponseData::Denied { task_id }) => assert_eq!(task_id, "task_x"),
        _ => panic!("wrong data"),
    }
    assert_eq!(d.pending.len(), 1);
    assert_eq!(d.pending[0].task_id, "task_y");
    let missing = d.handle_deny("d".into(), "task_x".into());
    assert_eq!(missing.status, "error");
    assert!(missing.data.is_none());
    assert_eq!(d.pending.len(), 1);
}

#[test]
fn refused_and_automatic_submissions() {
    let mut config = Config::default();
    config.security.denied_commands = vec!["rm".into()];
    let mut d = Daemon::new(config);
    match d.submit_with("r".into(), shell("rm", &["-rf", "/"]), &None, "t".into(), 0) {
        Step::Reply(r) => {
            assert_eq!(r.status, "error");
            assert_eq!(r.message, Some("Operation denied by policy: shell: rm -rf /".to_string()));
        }
        _ => panic!("refused operation must not run"),
    }
    let git = Operation::Git { command: "status".into(), repo_path: "/r".into() };
    match d.submit_with("g".into(), git, &None, "t2".into(), 0) {
        Step::Execute { task_id, .. } => assert_eq!(task_id, "t2"),
        _ => panic!("automatic operation must run"),
    }
    assert!(d.pending.is_empty());
    match d.handle_submit("h".into(), shell("ls", &[]), &None) {
        Step::Reply(r) => match r.data {
            Some(ResponseData::Submit { task_id, .. }) => {
                assert!(task_id.starts_with("task_"));
                assert_eq!(d.pending[0].task_id, task_id);
            }
            _ => panic!("wrong data"),
        },
        _ => panic!("held operation must not run"),
    }
}

#[test]
fn request_dispatch() {
    let mut d = Daemon::new(Config::default());
    let op = shell("uptime", &[]);
    match d.handle_request(request("v", Command::Validate { operation: op }), 5, &None) {
        Step::Reply(r) => match r.data {
            Some(ResponseData::Validation { operation, level }) => {
                assert_eq!(operation, "shell: uptime ");
                assert_eq!(level, SecurityLevel::Confirm);
            }
            _ => panic!("wrong data"),
        },
        _ => panic!("validation runs nothing"),
    }
    assert!(d.pending.is_empty());
    match d.handle_request(request("s", Command::Status), 42, &None) {
        Step::Reply(r) => match r.data {
            Some(ResponseData::Status { running, uptime_secs, tasks_pending }) => {
                assert!(running);
                assert_eq!(uptime_secs, 42);
                assert_eq!(tasks_pending, 0);
            }
            _ => panic!("wrong data"),
        },
        _ => panic!("status runs nothing"),
    }
    match d.handle_request(request("l", Command::Logs { count: Some(3) }), 0, &None) {
        Step::Reply(r) => match r.data {
            Some(ResponseData::Logs { entries }) => {
                assert_eq!(entries, vec!["Audit logging not yet implemented"])
            }
            _ => panic!("wrong data"),
        },
        _ => panic!("logs run nothing"),
    }
    d.handle_request(request("q", Command::Submit { operation: shell("ls", &[]) }), 0, &None);
    match d.handle_request(request("p", Command::Pending), 0, &None) {
        Step::Reply(r) => match r.data {
            Some(ResponseData::Pending { tasks }) => {
                assert_eq!(tasks.len(), 1);
                assert_eq!(tasks[0].operation, shell("ls", &[]));
                assert_eq!(tasks[0].task_id, d.pending[0].task_id);
            }
            _ => panic!("wrong data"),
        },
        _ => panic!("listing runs nothing"),
    }
    match d.handle_request(request("e", Command::Exec { prompt: "hi".into() }), 0, &None) {
        Step::Reply(r) => {
            assert_eq!(r.status, "error");
            assert_eq!(r.message, Some("Unsupported command: exec".to_string()));
        }
        _ => panic!("exec runs nothing"),
    }
}

#[test]
fn execution_replies() {
    let ok = Daemon::execution_reply(
        "i".into(),
        "t".into(),
        Ok(AgentResult { success: false, output: "o".into(), error: Some("o".into()) }),
    );
    assert_eq!(ok.status, "ok");
    match ok.data {
        Some(ResponseData::Executed { task_id, success, output }) => {
            assert_eq!(task_id, "t");
            assert!(!success);
            assert_eq!(output, "o");
        }
        _ => panic!("wrong data"),
    }
    let err = Daemon::execution_reply("i".into(), "t".into(), Err("boom".into()));
    assert_eq!(err.status, "error");
    assert_eq!(err.message, Some("boom".to_string()));
}

