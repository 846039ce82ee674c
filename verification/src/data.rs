//! The request data model: what a caller submits to start one task, and the
//! ghost-level views the contracts are stated over.

use vstd::prelude::*;

verus! {

/// Sandbox policy requested for the child process.
#[derive(Clone, Copy, Debug, PartialEq, Eq, Structural)]
pub enum SandboxPolicy {
    Unspecified,
    WorkspaceWrite,
    ReadOnly,
    DangerFullAccess,
}

/// Wire protocol the provider speaks.
#[derive(Clone, Copy, Debug, PartialEq, Eq, Structural)]
pub enum WireApi {
    Chat,
    Responses,
    ResponsesWebsocket,
}

/// Descriptor of the model provider the child should talk to.
#[derive(Clone, Debug)]
pub struct ProviderInfo {
    pub name: String,
    pub base_url: Option<String>,
    pub wire_api: WireApi,
    pub env_key: Option<String>,
    pub experimental_bearer_token: Option<String>,
    pub requires_openai_auth: bool,
}

/// One named subordinate-tool server definition.
#[derive(Clone, Debug)]
pub struct McpServer {
    pub name: String,
    pub server_type: String,
    pub command: String,
    pub url: String,
}

/// Per-session configuration carried by a request.
#[derive(Clone, Debug)]
pub struct SessionConfig {
    pub model: String,
    pub model_provider: String,
    pub instructions: Option<String>,
    pub developer_instructions: Option<String>,
    pub user_instructions: Option<String>,
    pub sandbox_policy: SandboxPolicy,
    pub provider_info: Option<ProviderInfo>,
    pub mcp_servers: Vec<McpServer>,
}

/// A caller-supplied file to materialize under the working directory.
#[derive(Clone, Debug)]
pub struct ContextFile {
    pub path: String,
    pub content: String,
}

/// One environment-variable entry of the request's mapping.
#[derive(Clone, Debug)]
pub struct EnvVar {
    pub name: String,
    pub value: String,
}

/// One task request, immutable once received.
#[derive(Clone, Debug)]
pub struct TaskRequest {
    pub session_id: String,
    pub prompt: String,
    pub base_dir: String,
    pub session_config: Option<SessionConfig>,
    pub context_files: Vec<ContextFile>,
    pub env_vars: Vec<EnvVar>,
    pub history_rollout: Vec<u8>,
}

pub ghost struct ProviderInfoModel {
    pub name: Seq<char>,
    pub base_url: Option<Seq<char>>,
    pub wire_api: WireApi,
    pub env_key: Option<Seq<char>>,
    pub bearer_token: Option<Seq<char>>,
    pub requires_openai_auth: bool,
}

pub ghost struct McpServerModel {
    pub name: Seq<char>,
    pub server_type: Seq<char>,
    pub command: Seq<char>,
    pub url: Seq<char>,
}

pub ghost struct SessionConfigModel {
    pub model: Seq<char>,
    pub model_provider: Seq<char>,
    pub instructions: Option<Seq<char>>,
    pub developer_instructions: Option<Seq<char>>,
    pub user_instructions: Option<Seq<char>>,
    pub sandbox_policy: SandboxPolicy,
    pub provider_info: Option<ProviderInfoModel>,
    pub mcp_servers: Seq<McpServerModel>,
}

pub ghost struct ContextFileModel {
    pub path: Seq<char>,
    pub content: Seq<char>,
}

pub ghost struct EnvVarModel {
    pub name: Seq<char>,
    pub value: Seq<char>,
}

pub ghost struct TaskRequestModel {
    pub session_id: Seq<char>,
    pub prompt: Seq<char>,
    pub base_dir: Seq<char>,
    pub session_config: Option<SessionConfigModel>,
    pub context_files: Seq<ContextFileModel>,
    pub env_vars: Seq<EnvVarModel>,
    pub history_rollout: Seq<u8>,
}

/// The view of an optional string: the character sequence, when present.
pub open spec fn opt_view(o: Option<String>) -> Option<Seq<char>> {
    match o {
        Option::Some(s) => Option::Some(s@),
        Option::None => Option::None,
    }
}

impl View for ProviderInfo {
    type V = ProviderInfoModel;

    open spec fn view(&self) -> ProviderInfoModel {
        ProviderInfoModel {
            name: self.name@,
            base_url: opt_view(self.base_url),
            wire_api: self.wire_api,
            env_key: opt_view(self.env_key),
            bearer_token: opt_view(self.experimental_bearer_token),
            requires_openai_auth: self.requires_openai_auth,
        }
    }
}

impl View for McpServer {
    type V = McpServerModel;

    open spec fn view(&self) -> McpServerModel {
        McpServerModel {
            name: self.name@,
            server_type: self.server_type@,
            command: self.command@,
            url: self.url@,
        }
    }
}

impl View for SessionConfig {
    type V = SessionConfigModel;

    open spec fn view(&self) -> SessionConfigModel {
        SessionConfigModel {
            model: self.model@,
            model_provider: self.model_provider@,
            instructions: opt_view(self.instructions),
            developer_instructions: opt_view(self.developer_instructions),
            user_instructions: opt_view(self.user_instructions),
            sandbox_policy: self.sandbox_policy,
            provider_info: match self.provider_info {
                Option::Some(p) => Option::Some(p@),
                Option::None => Option::None,
            },
            mcp_servers: self.mcp_servers@.map_values(|m: McpServer| m@),
        }
    }
}

impl View for ContextFile {
    type V = ContextFileModel;

    open spec fn view(&self) -> ContextFileModel {
        ContextFileModel { path: self.path@, content: self.content@ }
    }
}

impl View for EnvVar {
    type V = EnvVarModel;

    open spec fn view(&self) -> EnvVarModel {
        EnvVarModel { name: self.name@, value: self.value@ }
    }
}

impl View for TaskRequest {
    type V = TaskRequestModel;

    open spec fn view(&self) -> TaskRequestModel {
        TaskRequestModel {
            session_id: self.session_id@,
            prompt: self.prompt@,
            base_dir: self.base_dir@,
            session_config: match self.session_config {
                Option::Some(c) => Option::Some(c@),
                Option::None => Option::None,
            },
            context_files: self.context_files@.map_values(|f: ContextFile| f@),
            env_vars: self.env_vars@.map_values(|e: EnvVar| e@),
            history_rollout: self.history_rollout@,
        }
    }
}

/// The sandbox policy a wire code stands for; unknown codes fall back to
/// `Unspecified`.
pub open spec fn sandbox_policy_of_code(code: int) -> SandboxPolicy {
    if code == 1 {
        SandboxPolicy::WorkspaceWrite
    } else if code == 2 {
        SandboxPolicy::ReadOnly
    } else if code == 3 {
        SandboxPolicy::DangerFullAccess
    } else {
        SandboxPolicy::Unspecified
    }
}

/// Decodes a sandbox-policy wire code.
pub fn sandbox_policy_from_code(code: i32) -> (p: SandboxPolicy)
    ensures
        p == sandbox_policy_of_code(code as int),
{
    if code == 1 {
        SandboxPolicy::WorkspaceWrite
    } else if code == 2 {
        SandboxPolicy::ReadOnly
    } else if code == 3 {
        SandboxPolicy::DangerFullAccess
    } else {
        SandboxPolicy::Unspecified
    }
}

/// The wire API a wire code stands for; unknown codes fall back to `Chat`.
pub open spec fn wire_api_of_code(code: int) -> WireApi {
    if code == 1 {
        WireApi::Responses
    } else if code == 2 {
        WireApi::ResponsesWebsocket
    } else {
        WireApi::Chat
    }
}

/// Decodes a wire-API wire code.
pub fn wire_api_from_code(code: i32) -> (w: WireApi)
    ensures
        w == wire_api_of_code(code as int),
{
    if code == 1 {
        WireApi::Responses
    } else if code == 2 {
        WireApi::ResponsesWebsocket
    } else {
        WireApi::Chat
    }
}

/// The value bound to `key`, from the first entry of `env` bearing that name.
pub open spec fn env_lookup(env: Seq<EnvVarModel>, key: Seq<char>) -> Option<Seq<char>>
    decreases env.len(),
{
    if env.len() == 0 {
        Option::None
    } else if env[0].name == key {
        Option::Some(env[0].value)
    } else {
        env_lookup(env.skip(1), key)
    }
}

/// Looks `key` up in the request's environment mapping.
pub fn lookup_env(env: &Vec<EnvVar>, key: &String) -> (r: Option<String>)
    ensures
        opt_view(r) == env_lookup(env@.map_values(|e: EnvVar| e@), key@),
{
    let ghost m = env@.map_values(|e: EnvVar| e@);
    proof {
        assert(m.skip(0) =~= m);
    }
    let mut i: usize = 0;
    while i < env.len()
        invariant
            i <= env.len(),
            m == env@.map_values(|e: EnvVar| e@),
            env_lookup(m, key@) == env_lookup(m.skip(i as int), key@),
        decreases env.len() - i,
    {
        proof {
            assert(m.skip(i as int)[0] == m[i as int]);
            assert(m.skip(i as int).skip(1) =~= m.skip(i + 1));
        }
        if env[i].name == *key {
            return Option::Some(env[i].value.clone());
        }
        i = i + 1;
    }
    proof {
        assert(m.skip(env.len() as int) =~= Seq::<EnvVarModel>::empty());
    }
    Option::None
}

} // verus!
