//! The per-request orchestration plan: everything the adapter decides
//! before and around running the child, as one value. The binary executes
//! the plan in order — all writes first, then the spawn with the assembled
//! input — and streams events as the stream module directs.

use vstd::prelude::*;
use vstd::string::*;
use crate::command::{build_codex_command, command_args, command_env, CommandSpec};
use crate::config::{config_toml, generate_config_toml, resolve_session_config, resolved_config};
use crate::data::{ContextFile, ContextFileModel, TaskRequest, TaskRequestModel};
use crate::prompt::{build_full_prompt, full_prompt};
use crate::rollout::{rollout_rel_path, rollout_rel_path_model};
use crate::workspace::{allowed_context_files, filter_context_files, join_path, joined_path};

verus! {

/// The streaming agent service. The transport wrapper around the binary
/// holds one value of this type and derives, through the functions of this
/// crate, every decision a request calls for.
#[derive(Debug, Default)]
pub struct MyAgentService;

/// What one planned write puts into a file.
pub enum WriteContent {
    Text(String),
    Bytes(Vec<u8>),
}

pub ghost enum WriteContentModel {
    Text(Seq<char>),
    Bytes(Seq<u8>),
}

impl View for WriteContent {
    type V = WriteContentModel;

    open spec fn view(&self) -> WriteContentModel {
        match self {
            WriteContent::Text(s) => WriteContentModel::Text(s@),
            WriteContent::Bytes(b) => WriteContentModel::Bytes(b@),
        }
    }
}

/// One file the plan writes before the child is spawned.
pub struct FileWrite {
    pub path: String,
    pub content: WriteContent,
}

pub ghost struct FileWriteModel {
    pub path: Seq<char>,
    pub content: WriteContentModel,
}

impl View for FileWrite {
    type V = FileWriteModel;

    open spec fn view(&self) -> FileWriteModel {
        FileWriteModel { path: self.path@, content: self.content@ }
    }
}

/// The whole plan for one request: the writes, in order, all performed
/// before the child is spawned; the child invocation; and the payload
/// written to its input channel.
pub struct InvocationPlan {
    pub home: String,
    pub work_dir: String,
    pub writes: Vec<FileWrite>,
    pub command: CommandSpec,
    pub stdin_payload: String,
}

/// The working directory for a request: the caller's base directory when
/// one is named, else the `workspace` subdirectory of the home directory.
pub open spec fn work_dir_model(req: TaskRequestModel, home: Seq<char>) -> Seq<char> {
    if req.base_dir.len() > 0 {
        req.base_dir
    } else {
        joined_path(home, "workspace"@)
    }
}

/// The writes that materialize the allowed context files beneath the
/// working directory, in their given order.
pub open spec fn context_write_models(work_dir: Seq<char>, files: Seq<ContextFileModel>) -> Seq<
    FileWriteModel,
> {
    allowed_context_files(files).map_values(
        |f: ContextFileModel| FileWriteModel {
            path: joined_path(work_dir, f.path),
            content: WriteContentModel::Text(f.content),
        },
    )
}

/// Every file write of a request's plan, in order: the prior session bytes
/// at their conventional path when resuming, then the serialized
/// configuration when one was supplied, then the allowed context files.
pub open spec fn planned_writes(
    req: TaskRequestModel,
    home: Seq<char>,
    work_dir: Seq<char>,
    year: int,
    month: nat,
    day: nat,
) -> Seq<FileWriteModel> {
    (if req.history_rollout.len() > 0 {
        seq![
            FileWriteModel {
                path: joined_path(home, rollout_rel_path_model(year, month, day, req.session_id)),
                content: WriteContentModel::Bytes(req.history_rollout),
            },
        ]
    } else {
        Seq::empty()
    }) + (match req.session_config {
        Option::Some(c) => seq![
            FileWriteModel {
                path: joined_path(home, "config.toml"@),
                content: WriteContentModel::Text(config_toml(resolved_config(c, req.env_vars))),
            },
        ],
        Option::None => Seq::empty(),
    }) + context_write_models(work_dir, req.context_files)
}

fn clone_bytes(v: &Vec<u8>) -> (r: Vec<u8>)
    ensures
        r@ == v@,
{
    let mut r: Vec<u8> = Vec::new();
    let mut i: usize = 0;
    while i < v.len()
        invariant
            i <= v.len(),
            r@ == v@.take(i as int),
        decreases v.len() - i,
    {
        r.push(v[i]);
        assert(r@ =~= v@.take(i + 1));
        i = i + 1;
    }
    assert(v@.take(v.len() as int) =~= v@);
    r
}

/// Derives the whole plan for one request: where the workspace lies, every
/// file written before the spawn, the child invocation and its input
/// payload. The date names the day the session directory is placed under
/// when resuming.
pub fn plan_invocation(req: &TaskRequest, home: &str, year: i32, month: u32, day: u32) -> (p:
    InvocationPlan)
    ensures
        p.home@ == home@,
        p.work_dir@ == work_dir_model(req@, home@),
        p.writes@.map_values(|w: FileWrite| w@) == planned_writes(
            req@,
            home@,
            work_dir_model(req@, home@),
            year as int,
            month as nat,
            day as nat,
        ),
        p.command@.program == "codex"@,
        p.command@.args == command_args(req@),
        p.command@.env == command_env(req@, home@),
        p.command@.current_dir == work_dir_model(req@, home@),
        p.stdin_payload@ == full_prompt(req@.session_config, req@.prompt),
{
    let work_dir = if !req.base_dir.as_str().is_empty() {
        req.base_dir.clone()
    } else {
        join_path(home, "workspace")
    };
    let mut writes: Vec<FileWrite> = Vec::new();
    if req.history_rollout.len() > 0 {
        let rel = rollout_rel_path(year, month, day, req.session_id.as_str());
        let path = join_path(home, rel.as_str());
        writes.push(FileWrite { path, content: WriteContent::Bytes(clone_bytes(&req.history_rollout)) });
    }
    let ghost head1 = writes@.map_values(|w: FileWrite| w@);
    proof {
        assert(head1 =~= (if req@.history_rollout.len() > 0 {
            seq![
                FileWriteModel {
                    path: joined_path(
                        home@,
                        rollout_rel_path_model(
                            year as int,
                            month as nat,
                            day as nat,
                            req@.session_id,
                        ),
                    ),
                    content: WriteContentModel::Bytes(req@.history_rollout),
                },
            ]
        } else {
            Seq::<FileWriteModel>::empty()
        }));
    }
    match &req.session_config {
        Option::Some(c) => {
            let resolved = resolve_session_config(c, &req.env_vars);
            let toml = generate_config_toml(&resolved);
            writes.push(
                FileWrite { path: join_path(home, "config.toml"), content: WriteContent::Text(toml) },
            );
        },
        Option::None => {},
    }
    let ghost head2 = writes@.map_values(|w: FileWrite| w@);
    proof {
        assert(head2 =~= head1 + (match req@.session_config {
            Option::Some(c) => seq![
                FileWriteModel {
                    path: joined_path(home@, "config.toml"@),
                    content: WriteContentModel::Text(
                        config_toml(resolved_config(c, req@.env_vars)),
                    ),
                },
            ],
            Option::None => Seq::<FileWriteModel>::empty(),
        }));
    }
    let allowed = filter_context_files(&req.context_files);
    let ghost am = allowed@.map_values(|f: ContextFile| f@);
    let ghost cw = context_write_models(work_dir@, req@.context_files);
    proof {
        assert(am == allowed_context_files(req@.context_files));
        assert(cw.len() == am.len());
    }
    let mut i: usize = 0;
    while i < allowed.len()
        invariant
            i <= allowed.len(),
            am == allowed@.map_values(|f: ContextFile| f@),
            am == allowed_context_files(req@.context_files),
            cw == context_write_models(work_dir@, req@.context_files),
            cw.len() == am.len(),
            writes@.map_values(|w: FileWrite| w@) == head2 + cw.take(i as int),
        decreases allowed.len() - i,
    {
        let f = &allowed[i];
        let ghost prev = writes@;
        let w = FileWrite {
            path: join_path(work_dir.as_str(), f.path.as_str()),
            content: WriteContent::Text(f.content.clone()),
        };
        assert(w@ == cw[i as int]);
        writes.push(w);
        proof {
            let left = writes@.map_values(|x: FileWrite| x@);
            let right = head2 + cw.take(i + 1);
            assert(prev.map_values(|x: FileWrite| x@).len() == prev.len());
            assert forall|k: int| 0 <= k < left.len() implies left[k] == right[k] by {
                assert(left[k] == writes@[k]@);
                if k < prev.len() {
                    assert(writes@[k] == prev[k]);
                    assert(prev.map_values(|x: FileWrite| x@)[k] == prev[k]@);
                }
            }
            assert(left =~= right);
        }
        i = i + 1;
    }
    proof {
        assert(cw.take(allowed.len() as int) =~= cw);
        assert(writes@.map_values(|w: FileWrite| w@) =~= planned_writes(
            req@,
            home@,
            work_dir_model(req@, home@),
            year as int,
            month as nat,
            day as nat,
        ));
    }
    let command = build_codex_command(req, home, work_dir.as_str());
    let stdin_payload = build_full_prompt(req.prompt.as_str(), req.session_config.as_ref());
    InvocationPlan { home: home.to_owned(), work_dir, writes, command, stdin_payload }
}

/// Plans an invocation dated to the current day, which places a resumed
/// session's rollout under today's directory of the sessions hierarchy.
pub fn plan_invocation_now(req: &TaskRequest, home: &str) -> (p: InvocationPlan)
    ensures
        p.home@ == home@,
        p.work_dir@ == work_dir_model(req@, home@),
        p.command@.program == "codex"@,
        p.command@.args == command_args(req@),
        p.command@.env == command_env(req@, home@),
        p.command@.current_dir == work_dir_model(req@, home@),
        p.stdin_payload@ == full_prompt(req@.session_config, req@.prompt),
        (exists|year: int, month: nat, day: nat|
            1 <= month <= 12 && 1 <= day <= 31 && p.writes@.map_values(|w: FileWrite| w@)
                == planned_writes(
                req@,
                home@,
                work_dir_model(req@, home@),
                year,
                month,
                day,
            )),
{
    let (year, month, day) = crate::clock::today_utc();
    let p = plan_invocation(req, home, year, month, day);
    proof {
        assert(p.writes@.map_values(|w: FileWrite| w@) == planned_writes(
            req@,
            home@,
            work_dir_model(req@, home@),
            year as int,
            month as nat,
            day as nat,
        ));
    }
    p
}

/// Where one request stands in its lifecycle.
#[derive(Clone, Copy, Debug, PartialEq, Eq, Structural)]
pub enum RequestPhase {
    Init,
    WorkspacePrepared,
    ConfigWritten,
    ContextInjected,
    ProcessSpawned,
    Streaming,
    Completed,
    Failed,
}

/// The phase a request enters when its current stage succeeds.
pub open spec fn next_phase(p: RequestPhase) -> RequestPhase {
    match p {
        RequestPhase::Init => RequestPhase::WorkspacePrepared,
        RequestPhase::WorkspacePrepared => RequestPhase::ConfigWritten,
        RequestPhase::ConfigWritten => RequestPhase::ContextInjected,
        RequestPhase::ContextInjected => RequestPhase::ProcessSpawned,
        RequestPhase::ProcessSpawned => RequestPhase::Streaming,
        RequestPhase::Streaming => RequestPhase::Completed,
        RequestPhase::Completed => RequestPhase::Completed,
        RequestPhase::Failed => RequestPhase::Failed,
    }
}

/// Whether a phase is terminal: no event follows it.
pub open spec fn is_terminal_phase(p: RequestPhase) -> bool {
    p == RequestPhase::Completed || p == RequestPhase::Failed
}

/// Advances a request's phase after one stage: to the next phase when the
/// stage succeeded, to `Failed` — which is reachable from every live phase —
/// when it did not; terminal phases never change.
pub fn advance_phase(p: RequestPhase, ok: bool) -> (r: RequestPhase)
    ensures
        r == (if is_terminal_phase(p) {
            p
        } else if ok {
            next_phase(p)
        } else {
            RequestPhase::Failed
        }),
{
    match p {
        RequestPhase::Completed => RequestPhase::Completed,
        RequestPhase::Failed => RequestPhase::Failed,
        _ => {
            if !ok {
                RequestPhase::Failed
            } else {
                match p {
                    RequestPhase::Init => RequestPhase::WorkspacePrepared,
                    RequestPhase::WorkspacePrepared => RequestPhase::ConfigWritten,
                    RequestPhase::ConfigWritten => RequestPhase::ContextInjected,
                    RequestPhase::ContextInjected => RequestPhase::ProcessSpawned,
                    RequestPhase::ProcessSpawned => RequestPhase::Streaming,
                    _ => RequestPhase::Completed,
                }
            }
        },
    }
}

/// Law: `Completed` is reached only from `Streaming`, and only by success;
/// failure from any live phase leads to `Failed` and nowhere else.
pub proof fn lemma_phase_discipline(p: RequestPhase, ok: bool)
    requires
        !is_terminal_phase(p),
    ensures
        (if ok {
            next_phase(p)
        } else {
            RequestPhase::Failed
        }) == RequestPhase::Completed ==> (p == RequestPhase::Streaming && ok),
        !ok ==> (if ok {
            next_phase(p)
        } else {
            RequestPhase::Failed
        }) == RequestPhase::Failed,
{
}

/// Law: round trip — a request resumed with previously captured state
/// bytes persists exactly those bytes at the conventional session path
/// beneath the home directory as the plan's first write, performed before
/// the child is spawned, and launches the child with the resume directive
/// followed immediately by the session identifier.
pub proof fn lemma_resume_round_trip(
    req: TaskRequestModel,
    home: Seq<char>,
    work_dir: Seq<char>,
    year: int,
    month: nat,
    day: nat,
)
    requires
        req.history_rollout.len() > 0,
    ensures
        planned_writes(req, home, work_dir, year, month, day).len() > 0,
        planned_writes(req, home, work_dir, year, month, day)[0] == (FileWriteModel {
            path: joined_path(home, rollout_rel_path_model(year, month, day, req.session_id)),
            content: WriteContentModel::Bytes(req.history_rollout),
        }),
        (exists|i: int|
            0 <= i && i + 1 < command_args(req).len() && #[trigger] command_args(req)[i]
                == "resume"@ && command_args(req)[i + 1] == req.session_id),
{
    crate::command::lemma_resume_directive(req);
}

} // verus!
