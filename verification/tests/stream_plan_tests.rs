use codex_adapter::command::build_codex_command;
use codex_adapter::data::{ContextFile, EnvVar, SandboxPolicy, SessionConfig, TaskRequest, WireApi};
use codex_adapter::service::{
    advance_phase, plan_invocation, plan_invocation_now, RequestPhase, WriteContent,
};
use codex_adapter::stream::{
    after_forward, agent_output_event, completion_event, error_event, replay_run,
    stderr_log_event, Event, StreamDirective,
};
use codex_adapter::workspace::{filter_context_files, path_allowed};

fn bare_request(prompt: &str) -> TaskRequest {
    TaskRequest {
        session_id: String::from("sid"),
        prompt: String::from(prompt),
        base_dir: String::new(),
        session_config: None,
        context_files: Vec::new(),
        env_vars: Vec::new(),
        history_rollout: Vec::new(),
    }
}

fn minimal_config() -> SessionConfig {
    SessionConfig {
        model: String::from("m1"),
        model_provider: String::from("p1"),
        instructions: None,
        developer_instructions: None,
        user_instructions: None,
        sandbox_policy: SandboxPolicy::ReadOnly,
        provider_info: None,
        mcp_servers: Vec::new(),
    }
}

#[test]
fn path_rules() {
    assert!(path_allowed("a/b.txt"));
    assert!(path_allowed(""));
    assert!(!path_allowed("../evil"));
    assert!(!path_allowed("/abs"));
    assert!(!path_allowed("a/../b"));
    assert!(!path_allowed("a..b"));
}

#[test]
fn context_filter_keeps_only_allowed() {
    let files = vec![
        ContextFile { path: String::from("a/b.txt"), content: String::from("x") },
        ContextFile { path: String::from("../evil"), content: String::from("y") },
    ];
    let kept = filter_context_files(&files);
    assert_eq!(kept.len(), 1);
    assert_eq!(kept[0].path, "a/b.txt");
    assert_eq!(kept[0].content, "x");
}

#[test]
fn command_args_full() {
    let mut req = bare_request("p");
    req.session_config = Some(minimal_config());
    req.history_rollout = vec![1, 2, 3];
    req.env_vars = vec![EnvVar { name: String::from("K"), value: String::from("V") }];
    let c = build_codex_command(&req, "/home/x", "/work/y");
    assert_eq!(c.program, "codex");
    let expected: Vec<&str> = vec![
        "-c",
        "model=m1",
        "-c",
        "model_provider=p1",
        "exec",
        "--json",
        "--skip-git-repo-check",
        "--dangerously-bypass-approvals-and-sandbox",
        "--sandbox",
        "read-only",
        "resume",
        "sid",
        "-",
    ];
    let got: Vec<&str> = c.args.iter().map(|s| s.as_str()).collect();
    assert_eq!(got, expected);
    assert_eq!(c.current_dir, "/work/y");
    assert_eq!(c.env.len(), 3);
    assert_eq!(c.env[0].name, "CODEX_HOME");
    assert_eq!(c.env[0].value, "/home/x");
    assert_eq!(c.env[1].name, "RUST_LOG");
    assert_eq!(c.env[1].value, "info");
    assert_eq!(c.env[2].name, "K");
    assert_eq!(c.env[2].value, "V");
}

#[test]
fn command_args_without_history_or_config() {
    let req = bare_request("p");
    let c = build_codex_command(&req, "/h", "/w");
    let got: Vec<&str> = c.args.iter().map(|s| s.as_str()).collect();
    assert_eq!(
        got,
        vec![
            "exec",
            "--json",
            "--skip-git-repo-check",
            "--dangerously-bypass-approvals-and-sandbox",
            "-",
        ],
    );
    assert!(!got.contains(&"resume"));
}

#[test]
fn sandbox_flag_variants() {
    for (policy, flag) in [
        (SandboxPolicy::WorkspaceWrite, Some("workspace-write")),
        (SandboxPolicy::ReadOnly, Some("read-only")),
        (SandboxPolicy::DangerFullAccess, Some("danger-full-access")),
        (SandboxPolicy::Unspecified, None),
    ] {
        let mut req = bare_request("p");
        let mut cfg = minimal_config();
        cfg.model = String::new();
        cfg.model_provider = String::new();
        cfg.sandbox_policy = policy;
        req.session_config = Some(cfg);
        let c = build_codex_command(&req, "/h", "/w");
        let got: Vec<&str> = c.args.iter().map(|s| s.as_str()).collect();
        match flag {
            Some(f) => {
                let i = got.iter().position(|a| *a == "--sandbox").unwrap();
                assert_eq!(got[i + 1], f);
            }
            None => assert!(!got.contains(&"--sandbox")),
        }
    }
}

#[test]
fn stream_event_constructors() {
    assert_eq!(
        agent_output_event("line"),
        Event::AgentOutputLine(String::from("line")),
    );
    assert_eq!(stderr_log_event("boom"), Event::Log(String::from("[STDERR] boom")));
    assert_eq!(error_event("spawn failed"), Event::Error(String::from("Agent error: spawn failed")));
    assert_eq!(after_forward(true), StreamDirective::Continue);
    assert_eq!(after_forward(false), StreamDirective::KillChild);
}

#[test]
fn completion_event_cases() {
    assert_eq!(completion_event(true, Some(vec![9])), Some(Event::UpdatedState(vec![9])));
    assert_eq!(completion_event(true, None), None);
    assert_eq!(completion_event(false, Some(vec![9])), None);
}

#[test]
fn replay_preserves_output_order() {
    let lines = vec![String::from("l1"), String::from("l2"), String::from("l3")];
    let (events, killed) = replay_run(&lines, None, true, None);
    assert!(!killed);
    assert_eq!(
        events,
        vec![
            Event::AgentOutputLine(String::from("l1")),
            Event::AgentOutputLine(String::from("l2")),
            Event::AgentOutputLine(String::from("l3")),
        ],
    );
}

#[test]
fn replay_disconnect_kills_child() {
    let lines = vec![String::from("l1"), String::from("l2"), String::from("l3")];
    let (events, killed) = replay_run(&lines, Some(1), true, Some(vec![5]));
    assert!(killed);
    assert_eq!(events, vec![Event::AgentOutputLine(String::from("l1"))]);
}

#[test]
fn replay_failure_suppresses_state() {
    let lines = vec![String::from("l1")];
    let (events, killed) = replay_run(&lines, None, false, Some(vec![5]));
    assert!(!killed);
    assert_eq!(events, vec![Event::AgentOutputLine(String::from("l1"))]);
}

#[test]
fn replay_success_emits_one_state_last() {
    let lines = vec![String::from("l1"), String::from("l2")];
    let (events, killed) = replay_run(&lines, None, true, Some(vec![7, 8]));
    assert!(!killed);
    assert_eq!(events.len(), 3);
    assert_eq!(events[2], Event::UpdatedState(vec![7, 8]));
    let states = events
        .iter()
        .filter(|e| matches!(e, Event::UpdatedState(_)))
        .count();
    assert_eq!(states, 1);
}

#[test]
fn plan_bare_request() {
    let req = bare_request("hello");
    let p = plan_invocation(&req, "/tmp/h", 2024, 3, 7);
    assert_eq!(p.home, "/tmp/h");
    assert_eq!(p.work_dir, "/tmp/h/workspace");
    assert!(p.writes.is_empty());
    assert_eq!(p.stdin_payload, "hello");
    let got: Vec<&str> = p.command.args.iter().map(|s| s.as_str()).collect();
    assert!(!got.contains(&"resume"));
    let (events, killed) = replay_run(&Vec::new(), None, true, None);
    assert!(events.is_empty());
    assert!(!killed);
}

#[test]
fn plan_skips_invalid_context_file() {
    let mut req = bare_request("p");
    req.context_files = vec![
        ContextFile { path: String::from("a/b.txt"), content: String::from("x") },
        ContextFile { path: String::from("../evil"), content: String::from("y") },
    ];
    let p = plan_invocation(&req, "/tmp/h", 2024, 3, 7);
    assert_eq!(p.writes.len(), 1);
    assert_eq!(p.writes[0].path, "/tmp/h/workspace/a/b.txt");
    match &p.writes[0].content {
        WriteContent::Text(t) => assert_eq!(t, "x"),
        WriteContent::Bytes(_) => panic!("expected text content"),
    }
}

#[test]
fn plan_resume_round_trip() {
    let mut req = bare_request("p");
    req.history_rollout = vec![1, 2, 3];
    let p = plan_invocation(&req, "/tmp/h", 2024, 3, 7);
    assert!(!p.writes.is_empty());
    assert_eq!(p.writes[0].path, "/tmp/h/sessions/2024/03/07/rollout-sid.jsonl");
    match &p.writes[0].content {
        WriteContent::Bytes(b) => assert_eq!(b, &vec![1, 2, 3]),
        WriteContent::Text(_) => panic!("expected byte content"),
    }
    let got: Vec<&str> = p.command.args.iter().map(|s| s.as_str()).collect();
    let i = got.iter().position(|a| *a == "resume").unwrap();
    assert_eq!(got[i + 1], "sid");
}

#[test]
fn plan_now_places_rollout_under_sessions() {
    let mut req = bare_request("p");
    req.history_rollout = vec![4];
    let p = plan_invocation_now(&req, "/tmp/h");
    assert_eq!(p.writes.len(), 1);
    let path = &p.writes[0].path;
    assert!(path.starts_with("/tmp/h/sessions/"));
    assert!(path.ends_with("/rollout-sid.jsonl"));
    // sessions/<year>/<mm>/<dd>: two zero-padded two-digit components
    let rel = &path["/tmp/h/sessions/".len()..];
    let parts: Vec<&str> = rel.split('/').collect();
    assert_eq!(parts.len(), 4);
    assert_eq!(parts[1].len(), 2);
    assert_eq!(parts[2].len(), 2);
}

#[test]
fn plan_uses_caller_base_dir() {
    let mut req = bare_request("p");
    req.base_dir = String::from("/data/project");
    let p = plan_invocation(&req, "/tmp/h", 2024, 3, 7);
    assert_eq!(p.work_dir, "/data/project");
    assert_eq!(p.command.current_dir, "/data/project");
}

#[test]
fn phase_machine_walks_to_completed() {
    let mut p = RequestPhase::Init;
    for expected in [
        RequestPhase::WorkspacePrepared,
        RequestPhase::ConfigWritten,
        RequestPhase::ContextInjected,
        RequestPhase::ProcessSpawned,
        RequestPhase::Streaming,
        RequestPhase::Completed,
    ] {
        p = advance_phase(p, true);
        assert_eq!(p, expected);
    }
    assert_eq!(advance_phase(RequestPhase::Streaming, false), RequestPhase::Failed);
    assert_eq!(advance_phase(RequestPhase::Init, false), RequestPhase::Failed);
    assert_eq!(advance_phase(RequestPhase::Completed, false), RequestPhase::Completed);
    assert_eq!(advance_phase(RequestPhase::Failed, true), RequestPhase::Failed);
}

#[test]
fn plan_writes_config_before_context() {
    let mut req = bare_request("p");
    let mut cfg = minimal_config();
    cfg.sandbox_policy = SandboxPolicy::Unspecified;
    cfg.provider_info = Some(codex_adapter::data::ProviderInfo {
        name: String::from("prov"),
        base_url: None,
        wire_api: WireApi::Chat,
        env_key: Some(String::from("KEY")),
        experimental_bearer_token: None,
        requires_openai_auth: true,
    });
    req.session_config = Some(cfg);
    req.env_vars = vec![EnvVar { name: String::from("KEY"), value: String::from("tok") }];
    req.context_files = vec![ContextFile {
        path: String::from("f.txt"),
        content: String::from("c"),
    }];
    let p = plan_invocation(&req, "/tmp/h", 2024, 3, 7);
    assert_eq!(p.writes.len(), 2);
    assert_eq!(p.writes[0].path, "/tmp/h/config.toml");
    match &p.writes[0].content {
        WriteContent::Text(t) => {
            assert!(t.contains("experimental_bearer_token = \"tok\""));
            assert!(t.contains("requires_openai_auth = true"));
        }
        WriteContent::Bytes(_) => panic!("expected text content"),
    }
    assert_eq!(p.writes[1].path, "/tmp/h/workspace/f.txt");
}
