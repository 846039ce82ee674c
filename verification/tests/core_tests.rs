use codex_adapter::config::{generate_config_toml, resolve_session_config};
use codex_adapter::data::{
    lookup_env, sandbox_policy_from_code, wire_api_from_code, EnvVar, McpServer, ProviderInfo,
    SandboxPolicy, SessionConfig, WireApi,
};
use codex_adapter::prompt::build_full_prompt;
use codex_adapter::rollout::{
    is_rollout_path, rollout_file_name, rollout_rel_path, select_latest_rollout, session_dir,
    FileEntry,
};
use codex_adapter::text::{i32_dec_str, quote_str, u32_dec_str, u32_padded2_str};

fn sample_config() -> SessionConfig {
    SessionConfig {
        model: String::from("gpt-5"),
        model_provider: String::new(),
        instructions: Some(String::from("Be\ngood")),
        developer_instructions: None,
        user_instructions: None,
        sandbox_policy: SandboxPolicy::Unspecified,
        provider_info: Some(ProviderInfo {
            name: String::from("prov"),
            base_url: Some(String::from("http://x")),
            wire_api: WireApi::Responses,
            env_key: Some(String::from("KEY")),
            experimental_bearer_token: None,
            requires_openai_auth: false,
        }),
        mcp_servers: vec![McpServer {
            name: String::from("s1"),
            server_type: String::from("stdio"),
            command: String::from("run"),
            url: String::new(),
        }],
    }
}

#[test]
fn decimal_rendering() {
    assert_eq!(u32_dec_str(0), "0");
    assert_eq!(u32_dec_str(7), "7");
    assert_eq!(u32_dec_str(100000), "100000");
    assert_eq!(i32_dec_str(-5), "-5");
    assert_eq!(i32_dec_str(2024), "2024");
    assert_eq!(u32_padded2_str(5), "05");
    assert_eq!(u32_padded2_str(12), "12");
}

#[test]
fn quoting_escapes_specials() {
    assert_eq!(quote_str("plain"), "\"plain\"");
    assert_eq!(quote_str("a\"b\\c\nd\te\rf"), "\"a\\\"b\\\\c\\nd\\te\\rf\"");
    assert_eq!(quote_str(""), "\"\"");
}

#[test]
fn prompt_without_config_is_bare() {
    assert_eq!(build_full_prompt("hello", None), "hello");
}

#[test]
fn prompt_joins_nonempty_instruction_blocks() {
    let mut c = sample_config();
    c.developer_instructions = Some(String::new());
    c.user_instructions = Some(String::from("careful"));
    let p = build_full_prompt("do it", Some(&c));
    assert_eq!(p, "Be\ngood\n\ncareful\n\ndo it");
}

#[test]
fn config_toml_exact() {
    let c = sample_config();
    let toml = generate_config_toml(&c);
    let expected = "model_auto_compact_token_limit = 100000\n[history]\npersistence = \"save-all\"\n\n\
model = \"gpt-5\"\n\
instructions = \"Be\\ngood\"\n\
\n[model_providers.prov]\nname = \"prov\"\n\
base_url = \"http://x\"\n\
wire_api = \"responses\"\n\
env_key = \"KEY\"\n\
requires_openai_auth = false\n\
\n[mcp_servers.s1]\ntype = \"stdio\"\ncommand = \"run\"\n";
    assert_eq!(toml, expected);
}

#[test]
fn credential_resolution_substitutes_env_value() {
    let c = sample_config();
    let env = vec![EnvVar { name: String::from("KEY"), value: String::from("tok123") }];
    let r = resolve_session_config(&c, &env);
    let prov = r.provider_info.unwrap();
    assert_eq!(prov.experimental_bearer_token.as_deref(), Some("tok123"));
    assert_eq!(prov.env_key.as_deref(), Some("KEY"));
    let untouched = c.provider_info.unwrap();
    assert!(untouched.experimental_bearer_token.is_none());
}

#[test]
fn credential_resolution_without_binding_changes_nothing() {
    let c = sample_config();
    let env = vec![EnvVar { name: String::from("OTHER"), value: String::from("v") }];
    let r = resolve_session_config(&c, &env);
    let prov = r.provider_info.as_ref().unwrap();
    assert!(prov.experimental_bearer_token.is_none());
    let toml = generate_config_toml(&r);
    assert!(toml.contains("env_key = \"KEY\""));
}

#[test]
fn resolved_credential_lands_in_toml() {
    let c = sample_config();
    let env = vec![EnvVar { name: String::from("KEY"), value: String::from("tok") }];
    let r = resolve_session_config(&c, &env);
    let toml = generate_config_toml(&r);
    assert!(toml.contains("experimental_bearer_token = \"tok\""));
    assert!(!toml.contains("env_key = \"KEY\""));
}

#[test]
fn env_lookup_finds_first_match() {
    let env = vec![
        EnvVar { name: String::from("A"), value: String::from("1") },
        EnvVar { name: String::from("B"), value: String::from("2") },
    ];
    assert_eq!(lookup_env(&env, &String::from("B")), Some(String::from("2")));
    assert_eq!(lookup_env(&env, &String::from("C")), None);
}

#[test]
fn wire_codes_decode() {
    assert_eq!(sandbox_policy_from_code(0), SandboxPolicy::Unspecified);
    assert_eq!(sandbox_policy_from_code(1), SandboxPolicy::WorkspaceWrite);
    assert_eq!(sandbox_policy_from_code(2), SandboxPolicy::ReadOnly);
    assert_eq!(sandbox_policy_from_code(3), SandboxPolicy::DangerFullAccess);
    assert_eq!(sandbox_policy_from_code(99), SandboxPolicy::Unspecified);
    assert_eq!(wire_api_from_code(0), WireApi::Chat);
    assert_eq!(wire_api_from_code(1), WireApi::Responses);
    assert_eq!(wire_api_from_code(2), WireApi::ResponsesWebsocket);
    assert_eq!(wire_api_from_code(42), WireApi::Chat);
}

#[test]
fn session_paths() {
    assert_eq!(session_dir(2024, 3, 7), "sessions/2024/03/07");
    assert_eq!(rollout_file_name("abc"), "rollout-abc.jsonl");
    assert_eq!(rollout_rel_path(2024, 3, 7, "abc"), "sessions/2024/03/07/rollout-abc.jsonl");
    assert_eq!(session_dir(2025, 12, 31), "sessions/2025/12/31");
}

#[test]
fn rollout_extension_rule() {
    assert!(is_rollout_path("sessions/2024/03/07/rollout-a.jsonl"));
    assert!(is_rollout_path("a.jsonl"));
    assert!(!is_rollout_path(".jsonl"));
    assert!(!is_rollout_path("dir/.jsonl"));
    assert!(!is_rollout_path("a.json"));
    assert!(!is_rollout_path("jsonl"));
}

#[test]
fn latest_rollout_selection() {
    let entries = vec![
        FileEntry { path: String::from("s/a.jsonl"), mtime: 10 },
        FileEntry { path: String::from("s/readme.txt"), mtime: 99 },
        FileEntry { path: String::from("s/b.jsonl"), mtime: 30 },
        FileEntry { path: String::from("s/c.jsonl"), mtime: 30 },
    ];
    let r = select_latest_rollout(&entries).unwrap();
    assert_eq!(r.path, "s/b.jsonl");
    assert_eq!(r.mtime, 30);
}

#[test]
fn latest_rollout_none_without_candidates() {
    let entries = vec![FileEntry { path: String::from("s/readme.txt"), mtime: 99 }];
    assert!(select_latest_rollout(&entries).is_none());
    assert!(select_latest_rollout(&Vec::new()).is_none());
}
