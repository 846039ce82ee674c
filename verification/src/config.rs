//! Session configuration handling: request-scoped credential resolution and
//! serialization of the configuration artifact the child process reads.

use vstd::prelude::*;
use vstd::string::*;
use crate::data::{
    EnvVar, EnvVarModel, McpServer, McpServerModel, ProviderInfo, ProviderInfoModel,
    SessionConfig, SessionConfigModel, WireApi, env_lookup, opt_view,
};
use crate::text::{append_quoted, quoted};

verus! {

/// The provider after request-scoped credential resolution: when an
/// environment key name is set and bound in the request's environment
/// mapping, its value becomes the effective bearer credential; nothing else
/// changes. The caller-supplied configuration is never mutated in place.
pub open spec fn resolved_provider(p: ProviderInfoModel, env: Seq<EnvVarModel>) -> ProviderInfoModel {
    match p.env_key {
        Option::Some(k) => match env_lookup(env, k) {
            Option::Some(v) => ProviderInfoModel { bearer_token: Option::Some(v), ..p },
            Option::None => p,
        },
        Option::None => p,
    }
}

/// The configuration after credential resolution of its provider, when any.
pub open spec fn resolved_config(c: SessionConfigModel, env: Seq<EnvVarModel>) -> SessionConfigModel {
    match c.provider_info {
        Option::Some(p) => SessionConfigModel {
            provider_info: Option::Some(resolved_provider(p, env)),
            ..c
        },
        Option::None => c,
    }
}

fn clone_opt(o: &Option<String>) -> (r: Option<String>)
    ensures
        opt_view(r) == opt_view(*o),
{
    match o {
        Option::Some(s) => Option::Some(s.clone()),
        Option::None => Option::None,
    }
}

fn clone_mcp_servers(servers: &Vec<McpServer>) -> (r: Vec<McpServer>)
    ensures
        r@.map_values(|m: McpServer| m@) == servers@.map_values(|m: McpServer| m@),
{
    let mut r: Vec<McpServer> = Vec::new();
    let mut i: usize = 0;
    while i < servers.len()
        invariant
            i <= servers.len(),
            r@.map_values(|m: McpServer| m@) == servers@.map_values(|m: McpServer| m@).take(
                i as int,
            ),
        decreases servers.len() - i,
    {
        let s = &servers[i];
        let cloned = McpServer {
            name: s.name.clone(),
            server_type: s.server_type.clone(),
            command: s.command.clone(),
            url: s.url.clone(),
        };
        assert(cloned@ == s@);
        let ghost prev = r@;
        r.push(cloned);
        proof {
            let left = r@.map_values(|m: McpServer| m@);
            let right = servers@.map_values(|m: McpServer| m@).take(i + 1);
            assert(prev.map_values(|m: McpServer| m@).len() == prev.len());
            assert(servers@.map_values(|m: McpServer| m@).len() == servers@.len());
            assert(r@ == prev.push(servers@[i as int]) || r@.len() == prev.len() + 1);
            assert(left.len() == r@.len());
            assert(right.len() == i + 1);
            assert(left.len() == right.len());
            assert forall|j: int| 0 <= j < left.len() implies left[j] == right[j] by {
                assert(left[j] == r@[j]@);
                assert(right[j] == servers@[j]@);
                if j < i {
                    assert(r@[j] == prev[j]);
                    assert(prev.map_values(|m: McpServer| m@)[j] == prev[j]@);
                    assert(servers@.map_values(|m: McpServer| m@).take(i as int)[j]
                        == servers@[j]@);
                }
            }
            assert(left =~= right);
        }
        i = i + 1;
    }
    assert(servers@.map_values(|m: McpServer| m@).take(servers.len() as int) =~= servers@.map_values(
        |m: McpServer| m@,
    ));
    r
}

/// Resolves the provider's effective bearer credential from the request's
/// environment mapping, returning a fresh value; the input is not changed.
pub fn resolve_provider(p: &ProviderInfo, env: &Vec<EnvVar>) -> (r: ProviderInfo)
    ensures
        r@ == resolved_provider(p@, env@.map_values(|e: EnvVar| e@)),
{
    let token: Option<String> = match &p.env_key {
        Option::Some(k) => match crate::data::lookup_env(env, k) {
            Option::Some(v) => Option::Some(v),
            Option::None => clone_opt(&p.experimental_bearer_token),
        },
        Option::None => clone_opt(&p.experimental_bearer_token),
    };
    ProviderInfo {
        name: p.name.clone(),
        base_url: clone_opt(&p.base_url),
        wire_api: p.wire_api,
        env_key: clone_opt(&p.env_key),
        experimental_bearer_token: token,
        requires_openai_auth: p.requires_openai_auth,
    }
}

/// Resolves the configuration's provider credential, returning a fresh
/// configuration value; the caller's configuration is not changed.
pub fn resolve_session_config(c: &SessionConfig, env: &Vec<EnvVar>) -> (r: SessionConfig)
    ensures
        r@ == resolved_config(c@, env@.map_values(|e: EnvVar| e@)),
{
    let provider: Option<ProviderInfo> = match &c.provider_info {
        Option::Some(p) => Option::Some(resolve_provider(p, env)),
        Option::None => Option::None,
    };
    SessionConfig {
        model: c.model.clone(),
        model_provider: c.model_provider.clone(),
        instructions: clone_opt(&c.instructions),
        developer_instructions: clone_opt(&c.developer_instructions),
        user_instructions: clone_opt(&c.user_instructions),
        sandbox_policy: c.sandbox_policy,
        provider_info: provider,
        mcp_servers: clone_mcp_servers(&c.mcp_servers),
    }
}

/// The fixed leading lines of every configuration artifact.
pub open spec fn toml_header() -> Seq<char> {
    "model_auto_compact_token_limit = 100000\n[history]\npersistence = \"save-all\"\n\n"@
}

/// The rendering of a boolean value.
pub open spec fn bool_str(b: bool) -> Seq<char> {
    if b {
        "true"@
    } else {
        "false"@
    }
}

/// The wire-API identifier written into the artifact.
pub open spec fn wire_api_str(w: WireApi) -> Seq<char> {
    match w {
        WireApi::Chat => "chat"@,
        WireApi::Responses => "responses"@,
        WireApi::ResponsesWebsocket => "responses_websocket"@,
    }
}

/// One `key = "value"` line of the artifact.
pub open spec fn kv_line(key: Seq<char>, value: Seq<char>) -> Seq<char> {
    key + " = "@ + quoted(value) + "\n"@
}

/// The top-level key/value lines of the artifact: model, provider name and
/// instruction strings, each only when set.
pub open spec fn top_fields(c: SessionConfigModel) -> Seq<char> {
    (if c.model.len() > 0 {
        kv_line("model"@, c.model)
    } else {
        Seq::empty()
    }) + (if c.model_provider.len() > 0 {
        kv_line("model_provider"@, c.model_provider)
    } else {
        Seq::empty()
    }) + (match c.instructions {
        Option::Some(s) => kv_line("instructions"@, s),
        Option::None => Seq::empty(),
    }) + (match c.developer_instructions {
        Option::Some(s) => kv_line("developer_instructions"@, s),
        Option::None => Seq::empty(),
    })
}

/// The provider table of the artifact. The bearer credential, when present,
/// shadows the environment key name.
pub open spec fn provider_section(p: ProviderInfoModel) -> Seq<char> {
    "\n[model_providers."@ + p.name + "]\nname = "@ + quoted(p.name) + "\n"@ + (match p.base_url {
        Option::Some(u) => kv_line("base_url"@, u),
        Option::None => Seq::empty(),
    }) + "wire_api = "@ + quoted(wire_api_str(p.wire_api)) + "\n"@ + (match p.bearer_token {
        Option::Some(t) => kv_line("experimental_bearer_token"@, t),
        Option::None => match p.env_key {
            Option::Some(k) => kv_line("env_key"@, k),
            Option::None => Seq::empty(),
        },
    }) + "requires_openai_auth = "@ + bool_str(p.requires_openai_auth) + "\n"@
}

/// The table for one subordinate-tool server.
pub open spec fn mcp_section(s: McpServerModel) -> Seq<char> {
    "\n[mcp_servers."@ + s.name + "]\ntype = "@ + quoted(s.server_type) + "\n"@ + (if s.command.len()
        > 0 {
        kv_line("command"@, s.command)
    } else {
        Seq::empty()
    }) + (if s.url.len() > 0 {
        kv_line("url"@, s.url)
    } else {
        Seq::empty()
    })
}

/// The tables for all subordinate-tool servers, in the order given.
pub open spec fn mcp_sections(ss: Seq<McpServerModel>) -> Seq<char>
    decreases ss.len(),
{
    if ss.len() == 0 {
        Seq::empty()
    } else {
        mcp_sections(ss.drop_last()) + mcp_section(ss.last())
    }
}

/// The whole configuration artifact for a configuration value.
pub open spec fn config_toml(c: SessionConfigModel) -> Seq<char> {
    toml_header() + top_fields(c) + (match c.provider_info {
        Option::Some(p) => provider_section(p),
        Option::None => Seq::empty(),
    }) + mcp_sections(c.mcp_servers)
}

fn append_opt_kv(out: &mut String, key: &str, value: &Option<String>)
    ensures
        final(out)@ == old(out)@ + (match opt_view(*value) {
            Option::Some(s) => kv_line(key@, s),
            Option::None => Seq::empty(),
        }),
{
    let ghost base = out@;
    match value {
        Option::Some(v) => {
            out.append(key);
            out.append(" = ");
            append_quoted(out, v.as_str());
            out.append("\n");
            assert(out@ =~= base + kv_line(key@, v@));
        },
        Option::None => {
            assert(out@ =~= base + Seq::<char>::empty());
        },
    }
}

fn append_kv_if_nonempty(out: &mut String, key: &str, value: &String)
    ensures
        final(out)@ == old(out)@ + (if value@.len() > 0 {
            kv_line(key@, value@)
        } else {
            Seq::empty()
        }),
{
    let ghost base = out@;
    if !value.as_str().is_empty() {
        out.append(key);
        out.append(" = ");
        append_quoted(out, value.as_str());
        out.append("\n");
        assert(out@ =~= base + kv_line(key@, value@));
    } else {
        assert(out@ =~= base + Seq::<char>::empty());
    }
}

#[verifier::rlimit(50)]
fn append_provider_section(out: &mut String, p: &ProviderInfo)
    ensures
        final(out)@ == old(out)@ + provider_section(p@),
{
    let ghost base = out@;
    out.append("\n[model_providers.");
    out.append(p.name.as_str());
    out.append("]\nname = ");
    append_quoted(out, p.name.as_str());
    out.append("\n");
    assert(out@ =~= base + ("\n[model_providers."@ + p.name@ + "]\nname = "@ + quoted(p.name@)
        + "\n"@));
    let ghost head = base + ("\n[model_providers."@ + p.name@ + "]\nname = "@ + quoted(p.name@)
        + "\n"@);
    append_opt_kv(out, "base_url", &p.base_url);
    out.append("wire_api = ");
    match p.wire_api {
        WireApi::Chat => append_quoted(out, "chat"),
        WireApi::Responses => append_quoted(out, "responses"),
        WireApi::ResponsesWebsocket => append_quoted(out, "responses_websocket"),
    }
    out.append("\n");
    assert(out@ =~= head + (match p@.base_url {
        Option::Some(u) => kv_line("base_url"@, u),
        Option::None => Seq::empty(),
    }) + ("wire_api = "@ + quoted(wire_api_str(p@.wire_api)) + "\n"@));
    match &p.experimental_bearer_token {
        Option::Some(_) => append_opt_kv(
            out,
            "experimental_bearer_token",
            &p.experimental_bearer_token,
        ),
        Option::None => append_opt_kv(out, "env_key", &p.env_key),
    }
    out.append("requires_openai_auth = ");
    if p.requires_openai_auth {
        out.append("true");
    } else {
        out.append("false");
    }
    out.append("\n");
    assert(out@ =~= base + provider_section(p@));
}

fn append_mcp_section(out: &mut String, s: &McpServer)
    ensures
        final(out)@ == old(out)@ + mcp_section(s@),
{
    let ghost base = out@;
    out.append("\n[mcp_servers.");
    out.append(s.name.as_str());
    out.append("]\ntype = ");
    append_quoted(out, s.server_type.as_str());
    out.append("\n");
    append_kv_if_nonempty(out, "command", &s.command);
    append_kv_if_nonempty(out, "url", &s.url);
    assert(out@ =~= base + mcp_section(s@));
}

/// Serializes a configuration into the text artifact written to the child's
/// home directory before it is spawned.
pub fn generate_config_toml(config: &SessionConfig) -> (r: String)
    ensures
        r@ == config_toml(config@),
{
    let mut out = String::new();
    out.append(
        "model_auto_compact_token_limit = 100000\n[history]\npersistence = \"save-all\"\n\n",
    );
    append_kv_if_nonempty(&mut out, "model", &config.model);
    append_kv_if_nonempty(&mut out, "model_provider", &config.model_provider);
    append_opt_kv(&mut out, "instructions", &config.instructions);
    append_opt_kv(&mut out, "developer_instructions", &config.developer_instructions);
    assert(out@ =~= toml_header() + top_fields(config@));
    match &config.provider_info {
        Option::Some(p) => append_provider_section(&mut out, p),
        Option::None => {},
    }
    let ghost before_mcp = out@;
    let ghost m = config.mcp_servers@.map_values(|s: McpServer| s@);
    let mut i: usize = 0;
    while i < config.mcp_servers.len()
        invariant
            i <= config.mcp_servers.len(),
            m == config.mcp_servers@.map_values(|s: McpServer| s@),
            out@ == before_mcp + mcp_sections(m.take(i as int)),
        decreases config.mcp_servers.len() - i,
    {
        proof {
            assert(m.take(i + 1).drop_last() =~= m.take(i as int));
            assert(m.take(i + 1).last() == m[i as int]);
        }
        append_mcp_section(&mut out, &config.mcp_servers[i]);
        i = i + 1;
    }
    proof {
        assert(m.take(config.mcp_servers.len() as int) =~= m);
        assert(config@.mcp_servers == m);
    }
    assert(out@ =~= config_toml(config@));
    out
}

} // verus!
