//! Derivation of the child process invocation from a request: program name,
//! ordered argument list, environment overlay and working directory. Order
//! is significant: per-invocation overrides come before the subcommand, the
//! sandbox flag and any resume directive after it, and the trailing marker
//! directs the child to read its primary input from its input channel.

use vstd::prelude::*;
use vstd::string::*;
use crate::data::{EnvVar, EnvVarModel, SandboxPolicy, TaskRequest, TaskRequestModel};

verus! {

/// The child process invocation: executable, arguments in order, extra
/// environment entries (later entries shadow earlier ones) and the working
/// directory.
pub struct CommandSpec {
    pub program: String,
    pub args: Vec<String>,
    pub env: Vec<EnvVar>,
    pub current_dir: String,
}

pub ghost struct CommandSpecModel {
    pub program: Seq<char>,
    pub args: Seq<Seq<char>>,
    pub env: Seq<EnvVarModel>,
    pub current_dir: Seq<char>,
}

impl View for CommandSpec {
    type V = CommandSpecModel;

    open spec fn view(&self) -> CommandSpecModel {
        CommandSpecModel {
            program: self.program@,
            args: self.args@.map_values(|s: String| s@),
            env: self.env@.map_values(|e: EnvVar| e@),
            current_dir: self.current_dir@,
        }
    }
}

/// The flag pair a sandbox policy puts after the subcommand; an unspecified
/// policy adds none.
pub open spec fn sandbox_args(p: SandboxPolicy) -> Seq<Seq<char>> {
    match p {
        SandboxPolicy::WorkspaceWrite => seq!["--sandbox"@, "workspace-write"@],
        SandboxPolicy::ReadOnly => seq!["--sandbox"@, "read-only"@],
        SandboxPolicy::DangerFullAccess => seq!["--sandbox"@, "danger-full-access"@],
        SandboxPolicy::Unspecified => Seq::empty(),
    }
}

/// The full ordered argument list for a request: model and provider
/// overrides first, then the fixed subcommand and flags, the sandbox flag,
/// the resume directive exactly when prior session bytes were supplied, and
/// the input marker last.
pub open spec fn command_args(req: TaskRequestModel) -> Seq<Seq<char>> {
    (match req.session_config {
        Option::Some(c) => (if c.model.len() > 0 {
            seq!["-c"@, "model="@ + c.model]
        } else {
            Seq::empty()
        }) + (if c.model_provider.len() > 0 {
            seq!["-c"@, "model_provider="@ + c.model_provider]
        } else {
            Seq::empty()
        }),
        Option::None => Seq::empty(),
    }) + seq![
        "exec"@,
        "--json"@,
        "--skip-git-repo-check"@,
        "--dangerously-bypass-approvals-and-sandbox"@,
    ] + (match req.session_config {
        Option::Some(c) => sandbox_args(c.sandbox_policy),
        Option::None => Seq::empty(),
    }) + (if req.history_rollout.len() > 0 {
        seq!["resume"@, req.session_id]
    } else {
        Seq::empty()
    }) + seq!["-"@]
}

/// The environment overlay: the fixed home and log-verbosity variables
/// first, then the caller's entries, which may shadow them.
pub open spec fn command_env(req: TaskRequestModel, home: Seq<char>) -> Seq<EnvVarModel> {
    seq![
        EnvVarModel { name: "CODEX_HOME"@, value: home },
        EnvVarModel { name: "RUST_LOG"@, value: "info"@ },
    ] + req.env_vars
}

fn push_override(args: &mut Vec<String>, key: &str, value: &String)
    ensures
        final(args)@.map_values(|s: String| s@) == old(args)@.map_values(|s: String| s@)
            + (if value@.len() > 0 {
            seq!["-c"@, key@ + value@]
        } else {
            Seq::<Seq<char>>::empty()
        }),
{
    let ghost before = args@.map_values(|s: String| s@);
    if !value.as_str().is_empty() {
        args.push("-c".to_owned());
        let mut kv = key.to_owned();
        kv.append(value.as_str());
        args.push(kv);
    }
    assert(args@.map_values(|s: String| s@) =~= before + (if value@.len() > 0 {
        seq!["-c"@, key@ + value@]
    } else {
        Seq::<Seq<char>>::empty()
    }));
}

fn push_str_arg(args: &mut Vec<String>, arg: &str)
    ensures
        final(args)@.map_values(|s: String| s@) == old(args)@.map_values(|s: String| s@).push(
            arg@,
        ),
{
    let ghost before = args@.map_values(|s: String| s@);
    args.push(arg.to_owned());
    assert(args@.map_values(|s: String| s@) =~= before.push(arg@));
}

/// Builds the child process invocation for a request. The resume directive
/// and the session identifier appear, adjacent and in that order, exactly
/// when the request carries prior session bytes.
pub fn build_codex_command(req: &TaskRequest, codex_home: &str, work_dir: &str) -> (c: CommandSpec)
    ensures
        c@.program == "codex"@,
        c@.args == command_args(req@),
        c@.env == command_env(req@, codex_home@),
        c@.current_dir == work_dir@,
{
    let mut args: Vec<String> = Vec::new();
    match &req.session_config {
        Option::Some(config) => {
            push_override(&mut args, "model=", &config.model);
            push_override(&mut args, "model_provider=", &config.model_provider);
        },
        Option::None => {},
    }
    assert(args@.map_values(|s: String| s@) =~= match req@.session_config {
        Option::Some(c) => (if c.model.len() > 0 {
            seq!["-c"@, "model="@ + c.model]
        } else {
            Seq::<Seq<char>>::empty()
        }) + (if c.model_provider.len() > 0 {
            seq!["-c"@, "model_provider="@ + c.model_provider]
        } else {
            Seq::<Seq<char>>::empty()
        }),
        Option::None => Seq::<Seq<char>>::empty(),
    });
    let ghost a1 = args@.map_values(|s: String| s@);
    push_str_arg(&mut args, "exec");
    push_str_arg(&mut args, "--json");
    push_str_arg(&mut args, "--skip-git-repo-check");
    push_str_arg(&mut args, "--dangerously-bypass-approvals-and-sandbox");
    assert(args@.map_values(|s: String| s@) =~= a1 + seq![
        "exec"@,
        "--json"@,
        "--skip-git-repo-check"@,
        "--dangerously-bypass-approvals-and-sandbox"@,
    ]);
    let ghost a2 = args@.map_values(|s: String| s@);
    match &req.session_config {
        Option::Some(config) => {
            match config.sandbox_policy {
                SandboxPolicy::WorkspaceWrite => {
                    push_str_arg(&mut args, "--sandbox");
                    push_str_arg(&mut args, "workspace-write");
                },
                SandboxPolicy::ReadOnly => {
                    push_str_arg(&mut args, "--sandbox");
                    push_str_arg(&mut args, "read-only");
                },
                SandboxPolicy::DangerFullAccess => {
                    push_str_arg(&mut args, "--sandbox");
                    push_str_arg(&mut args, "danger-full-access");
                },
                SandboxPolicy::Unspecified => {},
            }
        },
        Option::None => {},
    }
    assert(args@.map_values(|s: String| s@) =~= a2 + (match req@.session_config {
        Option::Some(c) => sandbox_args(c.sandbox_policy),
        Option::None => Seq::<Seq<char>>::empty(),
    }));
    let ghost a3 = args@.map_values(|s: String| s@);
    if req.history_rollout.len() > 0 {
        push_str_arg(&mut args, "resume");
        let ghost a4 = args@.map_values(|s: String| s@);
        args.push(req.session_id.clone());
        assert(args@.map_values(|s: String| s@) =~= a4.push(req@.session_id));
    }
    assert(args@.map_values(|s: String| s@) =~= a3 + (if req@.history_rollout.len() > 0 {
        seq!["resume"@, req@.session_id]
    } else {
        Seq::<Seq<char>>::empty()
    }));
    push_str_arg(&mut args, "-");
    assert(args@.map_values(|s: String| s@) =~= command_args(req@));
    let mut env: Vec<EnvVar> = Vec::new();
    env.push(EnvVar { name: "CODEX_HOME".to_owned(), value: codex_home.to_owned() });
    env.push(EnvVar { name: "RUST_LOG".to_owned(), value: "info".to_owned() });
    let mut i: usize = 0;
    while i < req.env_vars.len()
        invariant
            i <= req.env_vars.len(),
            env@.map_values(|e: EnvVar| e@) =~= seq![
                EnvVarModel { name: "CODEX_HOME"@, value: codex_home@ },
                EnvVarModel { name: "RUST_LOG"@, value: "info"@ },
            ] + req.env_vars@.map_values(|e: EnvVar| e@).take(i as int),
        decreases req.env_vars.len() - i,
    {
        let e = &req.env_vars[i];
        let cloned = EnvVar { name: e.name.clone(), value: e.value.clone() };
        assert(cloned@ == req.env_vars@.map_values(|x: EnvVar| x@)[i as int]);
        let ghost prev = env@;
        env.push(cloned);
        proof {
            let mm = req.env_vars@.map_values(|x: EnvVar| x@);
            let fixed = seq![
                EnvVarModel { name: "CODEX_HOME"@, value: codex_home@ },
                EnvVarModel { name: "RUST_LOG"@, value: "info"@ },
            ];
            let left = env@.map_values(|x: EnvVar| x@);
            let right = fixed + mm.take(i + 1);
            assert(prev.map_values(|x: EnvVar| x@).len() == prev.len());
            assert(left.len() == prev.len() + 1);
            assert forall|j: int| 0 <= j < left.len() implies left[j] == right[j] by {
                assert(left[j] == env@[j]@);
                if j < prev.len() {
                    assert(env@[j] == prev[j]);
                    assert(prev.map_values(|x: EnvVar| x@)[j] == prev[j]@);
                } else {
                    assert(env@[j] == cloned);
                }
            }
            assert(left =~= right);
        }
        i = i + 1;
    }
    proof {
        let mm = req.env_vars@.map_values(|x: EnvVar| x@);
        assert(mm.take(req.env_vars.len() as int) =~= mm);
        assert(env@.map_values(|x: EnvVar| x@) =~= command_env(req@, codex_home@));
    }
    CommandSpec {
        program: "codex".to_owned(),
        args,
        env,
        current_dir: work_dir.to_owned(),
    }
}

/// Law: a request that carries prior session bytes is launched with the
/// resume directive followed immediately by its session identifier.
pub proof fn lemma_resume_directive(req: TaskRequestModel)
    requires
        req.history_rollout.len() > 0,
    ensures
        exists|i: int|
            0 <= i && i + 1 < command_args(req).len() && #[trigger] command_args(req)[i]
                == "resume"@ && command_args(req)[i + 1] == req.session_id,
{
    let args = command_args(req);
    let prefix = (match req.session_config {
        Option::Some(c) => (if c.model.len() > 0 {
            seq!["-c"@, "model="@ + c.model]
        } else {
            Seq::<Seq<char>>::empty()
        }) + (if c.model_provider.len() > 0 {
            seq!["-c"@, "model_provider="@ + c.model_provider]
        } else {
            Seq::<Seq<char>>::empty()
        }),
        Option::None => Seq::<Seq<char>>::empty(),
    }) + seq![
        "exec"@,
        "--json"@,
        "--skip-git-repo-check"@,
        "--dangerously-bypass-approvals-and-sandbox"@,
    ] + (match req.session_config {
        Option::Some(c) => sandbox_args(c.sandbox_policy),
        Option::None => Seq::<Seq<char>>::empty(),
    });
    let k = prefix.len() as int;
    assert(args[k] == "resume"@);
    assert(args[k + 1] == req.session_id);
    assert(0 <= k && k + 1 < args.len());
}

} // verus!
