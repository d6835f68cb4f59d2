//! The cgroup-v2 executor and its rollback manager.
//!
//! Both are written as step machines: the library decides which cgroup file to read and
//! write and what the outcome means; the caller performs the file-system work and
//! reports back what happened.
use std::collections::BTreeMap;
use vstd::prelude::*;
use crate::application::AppError;
use crate::clock::{elapsed_ms, now_utc, start_timer};
use crate::domain::action::{ActionKind, ActionResult, ActionStatus, ApprovedAction, RollbackToken};
use crate::ids::ActionId;
use crate::executor::proc_text::{cgroup_origin, origin_in};
use crate::text::{concat2, concat3, decimal, lines_of, trim, trim_seq, with_decimal};

verus! {

/// `PathBuf::join` on Unix: an absolute `part` replaces `base`; otherwise `part` is
/// appended, with a `/` separator unless `base` is empty or already ends with one.
pub open spec fn join_path(base: Seq<char>, part: Seq<char>) -> Seq<char> {
    if part.len() > 0 && part[0] == '/' {
        part
    } else if base.len() == 0 || base.last() == '/' {
        base + part
    } else {
        base + seq!['/'] + part
    }
}

/// `join_path` on strings.
pub fn join(base: &str, part: &str) -> (p: String)
    ensures
        p@ == join_path(base@, part@),
{
    let b = crate::text::chars_of(base);
    let q = crate::text::chars_of(part);
    if q.len() > 0 && q[0] == '/' {
        return part.to_owned();
    }
    if b.len() == 0 || b[b.len() - 1] == '/' {
        return concat2(base, part);
    }
    proof {
        reveal_strlit("/");
    }
    concat3(base, "/", part)
}

/// The text JSON-encoding the undo record `{action, group, previous_value}` (field order as
/// written, `null` for an absent previous value), as `serde_json::to_string` produces it.
pub uninterp spec fn snapshot_json(action: Seq<char>, group: Seq<char>, previous_value: Option<Seq<char>>) -> Seq<char>;

pub open spec fn opt_view(o: Option<String>) -> Option<Seq<char>> {
    match o {
        Some(s) => Some(s@),
        None => None,
    }
}

/// Serialises the undo record with `serde_json::to_string`, as a map from the three field
/// names to their values (`null` for an absent previous value). Serialising a map with
/// text keys and text-or-null values cannot fail: `to_string` writes into a `Vec`, which
/// never fails, and errs otherwise only for keys that are not strings or values whose
/// `Serialize` fails.
#[verifier::external_body]
fn encode_snapshot(action: &str, group: &str, previous_value: &Option<String>) -> (r: String)
    ensures
        r@ == snapshot_json(action@, group@, opt_view(*previous_value)),
{
    let mut m: BTreeMap<&str, Option<&str>> = BTreeMap::new();
    m.insert("action", Some(action));
    m.insert("group", Some(group));
    m.insert("previous_value", previous_value.as_deref());
    serde_json::to_string(&m).unwrap_or_default()
}

/// A record of the state a mutation replaced, from which it can be undone.
#[derive(Debug, PartialEq, Eq)]
pub struct CgroupSnapshot {
    pub action: String,
    pub group: String,
    /// Pre-mutation content of the target file (for example `"max"`).
    pub previous_value: Option<String>,
}

/// File-system work that an action needs.
#[derive(Debug, PartialEq, Eq)]
pub enum CgroupIo {
    /// Create the directory `dir` (and its parents), then try to write `content` to
    /// `subtree_control`, ignoring whether that write succeeds.
    CreateGroup { dir: String, subtree_control: String, content: String },
    /// Read the current content of `read_from` (if readable), then write `value` to `file`.
    Replace { read_from: String, file: String, value: String },
    /// Read `procs_file`, then kill each PID that `pids_to_terminate` finds in it (a
    /// failure of either is the failure of the action).
    Terminate { procs_file: String },
}

/// How an action will be carried out.
#[derive(Debug, PartialEq, Eq)]
pub enum CgroupPlan {
    /// Nothing to touch: the action succeeds with `message`.
    NoMutation { message: String },
    /// Carry out `io`; on success report `message` and, when `snapshot_action` is set,
    /// record a snapshot of `group` under that action name.
    Mutate { io: CgroupIo, message: String, group: String, snapshot_action: Option<String> },
    /// The executor does not handle this kind of action.
    Unsupported { message: String },
}

/// What the caller observed while carrying out a plan's `io`.
#[derive(Debug)]
pub enum IoReport {
    /// The work succeeded; `previous` is the raw content of `read_from` read beforehand
    /// (for `Replace`, when it could be read).
    Done { previous: Option<String> },
    /// The work failed with `message`.
    Failed { message: String },
}

/// The plan for an action kind under `root`, the directory holding the executor's cgroups.
pub open spec fn plan_for(root: Seq<char>, kind: ActionKind) -> CgroupPlanView {
    match kind {
        ActionKind::ObserveOnly => CgroupPlanView::NoMutation {
            message: "observe-only: no mutation performed"@,
        },
        ActionKind::CgroupCreate { name } => CgroupPlanView::CreateGroup {
            dir: join_path(root, name@),
            subtree_control: join_path(root, "cgroup.subtree_control"@),
            message: "cgroup '"@ + name@ + "' created"@,
        },
        ActionKind::CgroupSetCpuMax { group, quota } => CgroupPlanView::Replace {
            file: join_path(join_path(root, group@), "cpu.max"@),
            read_from: join_path(join_path(root, group@), "cpu.max"@),
            value: quota@,
            message: "cpu.max set to '"@ + quota@ + "'"@,
            group: group@,
            snapshot_action: "set_cpu_max"@,
        },
        ActionKind::CgroupSetMemoryMax { group, bytes } => CgroupPlanView::Replace {
            file: join_path(join_path(root, group@), "memory.max"@),
            read_from: join_path(join_path(root, group@), "memory.max"@),
            value: decimal(bytes as nat),
            message: "memory.max set to "@ + decimal(bytes as nat) + " bytes"@,
            group: group@,
            snapshot_action: "set_memory_max"@,
        },
        ActionKind::CgroupMovePid { group, pid } => CgroupPlanView::Replace {
            file: join_path(join_path(root, group@), "cgroup.procs"@),
            read_from: "/proc/"@ + decimal(pid as nat) + "/cgroup"@,
            value: decimal(pid as nat),
            message: "pid "@ + decimal(pid as nat) + " moved to '"@ + group@ + "'"@,
            group: group@,
            snapshot_action: "move_pid"@,
        },
        ActionKind::ProcessFreezeGroup { group } => CgroupPlanView::Replace {
            file: join_path(join_path(root, group@), "cgroup.freeze"@),
            read_from: join_path(join_path(root, group@), "cgroup.freeze"@),
            value: "1"@,
            message: "group '"@ + group@ + "' frozen"@,
            group: group@,
            snapshot_action: "freeze"@,
        },
        ActionKind::ProcessThawGroup { group } => CgroupPlanView::Replace {
            file: join_path(join_path(root, group@), "cgroup.freeze"@),
            read_from: join_path(join_path(root, group@), "cgroup.freeze"@),
            value: "0"@,
            message: "group '"@ + group@ + "' thawed"@,
            group: group@,
            snapshot_action: "thaw"@,
        },
        ActionKind::ProcessTerminateGroup { group } => CgroupPlanView::Terminate {
            procs_file: join_path(join_path(root, group@), "cgroup.procs"@),
            message: "group '"@ + group@ + "' terminated"@,
            group: group@,
        },
        _ => CgroupPlanView::Unsupported {
            message: "unsupported action kind for the cgroup executor"@,
        },
    }
}

/// A plan, with its texts taken as character sequences.
pub enum CgroupPlanView {
    NoMutation { message: Seq<char> },
    CreateGroup { dir: Seq<char>, subtree_control: Seq<char>, message: Seq<char> },
    Replace {
        file: Seq<char>,
        read_from: Seq<char>,
        value: Seq<char>,
        message: Seq<char>,
        group: Seq<char>,
        snapshot_action: Seq<char>,
    },
    Terminate { procs_file: Seq<char>, message: Seq<char>, group: Seq<char> },
    Unsupported { message: Seq<char> },
}

impl CgroupPlan {
    /// The plan's texts as character sequences.
    pub open spec fn view_plan(self) -> CgroupPlanView {
        match self {
            CgroupPlan::NoMutation { message } => CgroupPlanView::NoMutation { message: message@ },
            CgroupPlan::Unsupported { message } => CgroupPlanView::Unsupported { message: message@ },
            CgroupPlan::Mutate { io, message, group, snapshot_action } => match io {
                CgroupIo::CreateGroup { dir, subtree_control, content } => CgroupPlanView::CreateGroup {
                    dir: dir@,
                    subtree_control: subtree_control@,
                    message: message@,
                },
                CgroupIo::Replace { read_from, file, value } => CgroupPlanView::Replace {
                    file: file@,
                    read_from: read_from@,
                    value: value@,
                    message: message@,
                    group: group@,
                    snapshot_action: match snapshot_action {
                        Some(a) => a@,
                        None => Seq::empty(),
                    },
                },
                CgroupIo::Terminate { procs_file } => CgroupPlanView::Terminate {
                    procs_file: procs_file@,
                    message: message@,
                    group: group@,
                },
            },
        }
    }

    /// A well-formed plan: creating a group records no snapshot, replacing a file always
    /// records one, terminating records one, and creation writes `+cpu +memory`.
    pub open spec fn well_formed(self) -> bool {
        match self {
            CgroupPlan::Mutate { io, snapshot_action, .. } => match io {
                CgroupIo::CreateGroup { content, .. } => snapshot_action.is_none()
                    && content@ == "+cpu +memory"@,
                CgroupIo::Replace { .. } => snapshot_action.is_some(),
                CgroupIo::Terminate { .. } => snapshot_action matches Some(a) && a@ == "terminate"@,
            },
            _ => true,
        }
    }
}

/// Executes approved cgroup actions under one root directory.
#[derive(Debug)]
pub struct LinuxCgroupExecutor {
    cgroup_root: String,
}

/// An action whose file-system work is under way.
#[derive(Debug)]
pub struct PendingCgroupAction {
    pub action_id: ActionId,
    pub plan: CgroupPlan,
    pub started: std::time::Instant,
    pub executed_at: String,
}

/// The next step of an execution.
#[derive(Debug)]
pub enum CgroupStep {
    /// The action is finished.
    Done(ActionResult),
    /// Carry out `pending.plan`'s file-system work, then call `finish`.
    NeedIo(PendingCgroupAction),
}

/// The previous value that a snapshot of `action` records: for a file replacement, the
/// content read beforehand, trimmed (for a moved PID, the cgroup that
/// `/proc/<pid>/cgroup` names), when it could be read; nothing for other work, such as
/// a termination, whatever was reported.
pub open spec fn recorded_previous(io: CgroupIo, action: Seq<char>, previous: Option<String>) -> Option<Seq<char>> {
    match io {
        CgroupIo::Replace { .. } => match previous {
            Some(p) => if action == "move_pid"@ { origin_in(lines_of(p@)) } else { Some(trim_seq(p@)) },
            None => None,
        },
        _ => None,
    }
}

/// The result of finishing a plan with what the caller reported: success with the plan's
/// message, and the snapshot token when the plan records one; or failure with the
/// reported message and no token.
pub open spec fn finished_result(
    action_id: ActionId,
    executed_at: Seq<char>,
    plan: CgroupPlan,
    report: IoReport,
    r: ActionResult,
) -> bool {
    &&& r.action_id == action_id
    &&& r.executed_at@ == executed_at
    &&& match report {
        IoReport::Failed { message } => r.status == ActionStatus::Failed && r.message == message
            && r.rollback.is_none(),
        IoReport::Done { previous } => match plan {
            CgroupPlan::Mutate { io, message, group, snapshot_action } => {
                &&& r.status == ActionStatus::Succeeded
                &&& r.message == message
                &&& match snapshot_action {
                    None => r.rollback.is_none(),
                    Some(a) => r.rollback matches Some(t) && t.token@ == snapshot_json(
                        a@,
                        group@,
                        recorded_previous(io, a@, previous),
                    ),
                }
            },
            CgroupPlan::NoMutation { message } => r.status == ActionStatus::Succeeded
                && r.message == message && r.rollback.is_none(),
            CgroupPlan::Unsupported { message } => r.status == ActionStatus::Failed
                && r.message == message && r.rollback.is_none(),
        },
    }
}

impl LinuxCgroupExecutor {
    /// `cgroup_root` is the directory under which all managed cgroups live, typically
    /// `/sys/fs/cgroup/agenticos`.
    pub fn new(cgroup_root: String) -> (e: Self)
        ensures
            e.root() == cgroup_root@,
    {
        LinuxCgroupExecutor { cgroup_root }
    }

    pub closed spec fn root(&self) -> Seq<char> {
        self.cgroup_root@
    }

    /// Full path of the cgroup named `group`.
    pub fn group_path(&self, group: &str) -> (p: String)
        ensures
            p@ == join_path(self.root(), group@),
    {
        join(self.cgroup_root.as_str(), group)
    }

    fn group_file(&self, group: &str, file: &str) -> (p: String)
        ensures
            p@ == join_path(join_path(self.root(), group@), file@),
    {
        let g = self.group_path(group);
        join(g.as_str(), file)
    }

    fn plan_replace(
        &self,
        group: &String,
        file: &str,
        value: String,
        message: String,
        snapshot_action: &str,
    ) -> (p: CgroupPlan)
        ensures
            p == (CgroupPlan::Mutate {
                io: CgroupIo::Replace { read_from: p->io->read_from, file: p->io->file, value },
                message,
                group: *group,
                snapshot_action: Some(p->snapshot_action->0),
            }),
            p->io->read_from@ == join_path(join_path(self.root(), group@), file@),
            p->io->file@ == join_path(join_path(self.root(), group@), file@),
            p->snapshot_action->0@ == snapshot_action@,
    {
        let path = self.group_file(group.as_str(), file);
        CgroupPlan::Mutate {
            io: CgroupIo::Replace { read_from: path.clone(), file: path, value },
            message,
            group: group.clone(),
            snapshot_action: Some(snapshot_action.to_owned()),
        }
    }

    /// Plan for `cpu.max` of `group` set to `quota`, recording the old value.
    pub fn plan_set_cpu_max(&self, group: &String, quota: &String) -> (p: CgroupPlan)
        ensures
            p.view_plan() == plan_for(self.root(), ActionKind::CgroupSetCpuMax { group: *group, quota: *quota }),
            p.well_formed(),
    {
        let message = concat3("cpu.max set to '", quota.as_str(), "'");
        self.plan_replace(group, "cpu.max", quota.clone(), message, "set_cpu_max")
    }

    /// Plan for `memory.max` of `group` set to `bytes`, recording the old value.
    pub fn plan_set_memory_max(&self, group: &String, bytes: u64) -> (p: CgroupPlan)
        ensures
            p.view_plan() == plan_for(self.root(), ActionKind::CgroupSetMemoryMax { group: *group, bytes }),
            p.well_formed(),
    {
        let value = with_decimal("", bytes);
        let mut message = with_decimal("memory.max set to ", bytes);
        message.append(" bytes");
        proof {
            reveal_strlit("");
            assert(""@ + decimal(bytes as nat) =~= decimal(bytes as nat));
        }
        self.plan_replace(group, "memory.max", value, message, "set_memory_max")
    }

    /// Plan for moving `pid` into `group`, recording the cgroup the PID was in as read
    /// from `/proc/<pid>/cgroup`.
    pub fn plan_move_pid(&self, group: &String, pid: u32) -> (p: CgroupPlan)
        ensures
            p.view_plan() == plan_for(self.root(), ActionKind::CgroupMovePid { group: *group, pid }),
            p.well_formed(),
    {
        let file = self.group_file(group.as_str(), "cgroup.procs");
        let mut read_from = with_decimal("/proc/", pid as u64);
        read_from.append("/cgroup");
        let value = with_decimal("", pid as u64);
        let mut message = with_decimal("pid ", pid as u64);
        message.append(" moved to '");
        message.append(group.as_str());
        message.append("'");
        proof {
            reveal_strlit("");
            assert(""@ + decimal(pid as nat) =~= decimal(pid as nat));
        }
        CgroupPlan::Mutate {
            io: CgroupIo::Replace { read_from, file, value },
            message,
            group: group.clone(),
            snapshot_action: Some("move_pid".to_owned()),
        }
    }

    /// Plan for freezing `group` (`cgroup.freeze` set to `1`).
    pub fn plan_freeze(&self, group: &String) -> (p: CgroupPlan)
        ensures
            p.view_plan() == plan_for(self.root(), ActionKind::ProcessFreezeGroup { group: *group }),
            p.well_formed(),
            p matches CgroupPlan::Mutate { io: CgroupIo::Replace { value, .. }, .. } && value@ == "1"@,
    {
        let message = concat3("group '", group.as_str(), "' frozen");
        self.plan_replace(group, "cgroup.freeze", "1".to_owned(), message, "freeze")
    }

    /// Plan for thawing `group` (`cgroup.freeze` set to `0`).
    pub fn plan_thaw(&self, group: &String) -> (p: CgroupPlan)
        ensures
            p.view_plan() == plan_for(self.root(), ActionKind::ProcessThawGroup { group: *group }),
            p.well_formed(),
            p matches CgroupPlan::Mutate { io: CgroupIo::Replace { value, .. }, .. } && value@ == "0"@,
    {
        let message = concat3("group '", group.as_str(), "' thawed");
        self.plan_replace(group, "cgroup.freeze", "0".to_owned(), message, "thaw")
    }

    /// The plan for an action kind (see `plan_for`).
    pub fn dispatch(&self, kind: &ActionKind) -> (p: CgroupPlan)
        ensures
            p.view_plan() == plan_for(self.root(), *kind),
            p.well_formed(),
    {
        match kind {
            ActionKind::ObserveOnly => CgroupPlan::NoMutation {
                message: "observe-only: no mutation performed".to_owned(),
            },
            ActionKind::CgroupCreate { name } => {
                let dir = self.group_path(name.as_str());
                let subtree_control = join(self.cgroup_root.as_str(), "cgroup.subtree_control");
                let message = concat3("cgroup '", name.as_str(), "' created");
                CgroupPlan::Mutate {
                    io: CgroupIo::CreateGroup {
                        dir,
                        subtree_control,
                        content: "+cpu +memory".to_owned(),
                    },
                    message,
                    group: name.clone(),
                    snapshot_action: None,
                }
            },
            ActionKind::CgroupSetCpuMax { group, quota } => self.plan_set_cpu_max(group, quota),
            ActionKind::CgroupSetMemoryMax { group, bytes } => self.plan_set_memory_max(group, *bytes),
            ActionKind::CgroupMovePid { group, pid } => self.plan_move_pid(group, *pid),
            ActionKind::ProcessFreezeGroup { group } => self.plan_freeze(group),
            ActionKind::ProcessThawGroup { group } => self.plan_thaw(group),
            ActionKind::ProcessTerminateGroup { group } => {
                let procs_file = self.group_file(group.as_str(), "cgroup.procs");
                let message = concat3("group '", group.as_str(), "' terminated");
                CgroupPlan::Mutate {
                    io: CgroupIo::Terminate { procs_file },
                    message,
                    group: group.clone(),
                    snapshot_action: Some("terminate".to_owned()),
                }
            },
            _ => CgroupPlan::Unsupported {
                message: "unsupported action kind for the cgroup executor".to_owned(),
            },
        }
    }

    /// Starts executing `action`: actions without file-system work finish at once;
    /// the others come back as `NeedIo`, carrying the plan for the action's kind.
    pub fn execute_step(&self, action: ApprovedAction) -> (s: CgroupStep)
        ensures
            match s {
                CgroupStep::Done(r) => {
                    &&& r.action_id == action.request.id
                    &&& crate::clock::is_timestamp(r.executed_at@)
                    &&& r.rollback.is_none()
                    &&& match plan_for(self.root(), action.request.kind) {
                        CgroupPlanView::NoMutation { message } => r.status == ActionStatus::Succeeded
                            && r.message@ == message,
                        CgroupPlanView::Unsupported { message } => r.status == ActionStatus::Failed
                            && r.message@ == message,
                        _ => false,
                    }
                },
                CgroupStep::NeedIo(p) => {
                    &&& p.action_id == action.request.id
                    &&& p.plan.view_plan() == plan_for(self.root(), action.request.kind)
                    &&& p.plan is Mutate
                    &&& p.plan.well_formed()
                    &&& crate::clock::is_timestamp(p.executed_at@)
                },
            },
    {
        let started = start_timer();
        let executed_at = now_utc();
        let plan = self.dispatch(&action.request.kind);
        match plan {
            CgroupPlan::NoMutation { message } => CgroupStep::Done(ActionResult {
                action_id: action.request.id,
                status: ActionStatus::Succeeded,
                message,
                executed_at,
                duration_ms: elapsed_ms(&started),
                rollback: None,
            }),
            CgroupPlan::Unsupported { message } => CgroupStep::Done(ActionResult {
                action_id: action.request.id,
                status: ActionStatus::Failed,
                message,
                executed_at,
                duration_ms: elapsed_ms(&started),
                rollback: None,
            }),
            CgroupPlan::Mutate { .. } => CgroupStep::NeedIo(PendingCgroupAction {
                action_id: action.request.id,
                plan,
                started,
                executed_at,
            }),
        }
    }

    /// Finishes a pending action with what the caller observed (see `finished_result`).
    /// A recorded previous value is the trimmed content of the file that the action
    /// replaced; for a moved PID, the cgroup that `/proc/<pid>/cgroup` names.
    pub fn finish(&self, pending: PendingCgroupAction, report: IoReport) -> (r: ActionResult)
        ensures
            finished_result(pending.action_id, pending.executed_at@, pending.plan, report, r),
    {
        let duration_ms = elapsed_ms(&pending.started);
        match report {
            IoReport::Failed { message } => ActionResult {
                action_id: pending.action_id,
                status: ActionStatus::Failed,
                message,
                executed_at: pending.executed_at,
                duration_ms,
                rollback: None,
            },
            IoReport::Done { previous } => match pending.plan {
                CgroupPlan::NoMutation { message } => ActionResult {
                    action_id: pending.action_id,
                    status: ActionStatus::Succeeded,
                    message,
                    executed_at: pending.executed_at,
                    duration_ms,
                    rollback: None,
                },
                CgroupPlan::Unsupported { message } => ActionResult {
                    action_id: pending.action_id,
                    status: ActionStatus::Failed,
                    message,
                    executed_at: pending.executed_at,
                    duration_ms,
                    rollback: None,
                },
                CgroupPlan::Mutate { io, message, group, snapshot_action } => {
                    let rollback = match snapshot_action {
                        None => None,
                        Some(a) => {
                            let reads_previous = matches!(io, CgroupIo::Replace { .. });
                            let prev = match &previous {
                                Some(p) if reads_previous => if crate::text::str_eq(a.as_str(), "move_pid") {
                                    cgroup_origin(p.as_str())
                                } else {
                                    Some(trim(p.as_str()))
                                },
                                _ => None,
                            };
                            Some(RollbackToken { token: encode_snapshot(a.as_str(), group.as_str(), &prev) })
                        },
                    };
                    ActionResult {
                        action_id: pending.action_id,
                        status: ActionStatus::Succeeded,
                        message,
                        executed_at: pending.executed_at,
                        duration_ms,
                        rollback,
                    }
                },
            },
        }
    }
}

} // verus!

verus! {

/// What undoing a recorded action amounts to.
pub enum RollbackPlanView {
    /// Write `content` to `file`.
    Restore { file: Seq<char>, content: Seq<char> },
    /// The action cannot be undone, for `reason`.
    Refuse { reason: Seq<char> },
}

/// The cgroup file that a replacement recorded under `action` wrote, if `action` names one.
pub open spec fn restored_file(action: Seq<char>) -> Option<Seq<char>> {
    if action == "set_cpu_max"@ {
        Some("cpu.max"@)
    } else if action == "set_memory_max"@ {
        Some("memory.max"@)
    } else if action == "freeze"@ || action == "thaw"@ {
        Some("cgroup.freeze"@)
    } else {
        None
    }
}

/// How to undo the record `(action, group, previous)` under `root`: restore the recorded
/// value (or `max` when none was recorded) for replacements; refuse moves, terminations
/// and unknown actions.
pub open spec fn rollback_plan(
    root: Seq<char>,
    action: Seq<char>,
    group: Seq<char>,
    previous: Option<Seq<char>>,
) -> RollbackPlanView {
    match restored_file(action) {
        Some(file) => RollbackPlanView::Restore {
            file: join_path(join_path(root, group), file),
            content: match previous {
                Some(p) => p,
                None => "max"@,
            },
        },
        None => if action == "move_pid"@ {
            RollbackPlanView::Refuse {
                reason: match previous {
                    Some(origin) => "rollback of move_pid requires PID tracking (origin cgroup: "@
                        + origin + ")"@,
                    None => "rollback of move_pid: no origin recorded"@,
                },
            }
        } else if action == "terminate"@ {
            RollbackPlanView::Refuse { reason: "terminate cannot be rolled back"@ }
        } else {
            RollbackPlanView::Refuse { reason: "unknown rollback action: "@ + action }
        },
    }
}

/// The message of a finished rollback of `action`.
pub open spec fn rollback_message(action: Seq<char>, failure: Option<Seq<char>>) -> Seq<char> {
    match failure {
        None => "rollback of '"@ + action + "' succeeded"@,
        Some(reason) => "rollback of '"@ + action + "' failed: "@ + reason,
    }
}

/// Applies the inverse of previously recorded cgroup mutations.
#[derive(Debug)]
pub struct CgroupRollbackManager {
    cgroup_root: String,
}

/// A rollback whose file write is under way.
#[derive(Debug)]
pub struct PendingRollback {
    /// The action being undone.
    pub action: String,
    /// Write `content` to `file`, then call `finish_rollback`.
    pub file: String,
    pub content: String,
    pub started: std::time::Instant,
    pub executed_at: String,
}

/// The next step of a rollback.
#[derive(Debug)]
pub enum RollbackStep {
    Done(ActionResult),
    NeedWrite(PendingRollback),
}

/// `r` is the finished rollback of `action` (status, message, action id `"rollback"`).
pub open spec fn rollback_result(r: ActionResult, action: Seq<char>, failure: Option<Seq<char>>) -> bool {
    &&& r.action_id@ == "rollback"@
    &&& r.status == (if failure.is_none() { ActionStatus::Succeeded } else { ActionStatus::Failed })
    &&& r.message@ == rollback_message(action, failure)
    &&& r.rollback.is_none()
}

/// `step` carries out `rollback_plan(root, action, group, previous)`.
pub open spec fn follows_rollback_plan(
    step: RollbackStep,
    root: Seq<char>,
    action: Seq<char>,
    group: Seq<char>,
    previous: Option<Seq<char>>,
) -> bool {
    match rollback_plan(root, action, group, previous) {
        RollbackPlanView::Restore { file, content } => step matches RollbackStep::NeedWrite(p)
            && p.action@ == action && p.file@ == file && p.content@ == content
            && crate::clock::is_timestamp(p.executed_at@),
        RollbackPlanView::Refuse { reason } => step matches RollbackStep::Done(r)
            && rollback_result(r, action, Some(reason)) && crate::clock::is_timestamp(r.executed_at@),
    }
}

impl CgroupRollbackManager {
    pub fn new(cgroup_root: String) -> (m: Self)
        ensures
            m.root() == cgroup_root@,
    {
        CgroupRollbackManager { cgroup_root }
    }

    pub closed spec fn root(&self) -> Seq<char> {
        self.cgroup_root@
    }

    fn plan(&self, action: &String, group: &String, previous: &Option<String>) -> (s: RollbackStep)
        ensures
            follows_rollback_plan(s, self.root(), action@, group@, opt_view(*previous)),
    {
        let started = start_timer();
        let executed_at = now_utc();
        let a = action.as_str();
        proof {
            reveal_strlit("max");
        }
        let file: Option<&str> = if crate::text::str_eq(a, "set_cpu_max") {
            Some("cpu.max")
        } else if crate::text::str_eq(a, "set_memory_max") {
            Some("memory.max")
        } else if crate::text::str_eq(a, "freeze") || crate::text::str_eq(a, "thaw") {
            Some("cgroup.freeze")
        } else {
            None
        };
        match file {
            Some(f) => {
                let dir = join(self.cgroup_root.as_str(), group.as_str());
                let path = join(dir.as_str(), f);
                let content = match previous {
                    Some(p) => p.clone(),
                    None => "max".to_owned(),
                };
                RollbackStep::NeedWrite(PendingRollback {
                    action: action.clone(),
                    file: path,
                    content,
                    started,
                    executed_at,
                })
            },
            None => {
                let reason = if crate::text::str_eq(a, "move_pid") {
                    match previous {
                        Some(origin) => concat3(
                            "rollback of move_pid requires PID tracking (origin cgroup: ",
                            origin.as_str(),
                            ")",
                        ),
                        None => "rollback of move_pid: no origin recorded".to_owned(),
                    }
                } else if crate::text::str_eq(a, "terminate") {
                    "terminate cannot be rolled back".to_owned()
                } else {
                    concat2("unknown rollback action: ", a)
                };
                let message = Self::message(a, Some(reason.as_str()));
                RollbackStep::Done(ActionResult {
                    action_id: ActionId::from_string("rollback"),
                    status: ActionStatus::Failed,
                    message,
                    executed_at,
                    duration_ms: elapsed_ms(&started),
                    rollback: None,
                })
            },
        }
    }

    fn message(action: &str, failure: Option<&str>) -> (m: String)
        ensures
            m@ == rollback_message(
                action@,
                match failure {
                    Some(f) => Some(f@),
                    None => None,
                },
            ),
    {
        let mut m = concat3("rollback of '", action, "'");
        proof {
            reveal_strlit("rollback of '");
            reveal_strlit("'");
            reveal_strlit(" succeeded");
            reveal_strlit(" failed: ");
            reveal_strlit("' succeeded");
            reveal_strlit("' failed: ");
        }
        match failure {
            None => {
                m.append(" succeeded");
                assert(m@ =~= "rollback of '"@ + action@ + "' succeeded"@);
            },
            Some(f) => {
                m.append(" failed: ");
                m.append(f);
                assert(m@ =~= "rollback of '"@ + action@ + "' failed: "@ + f@);
            },
        }
        m
    }

    /// Starts undoing a recorded action. `decoded` is the caller's reading of the rollback
    /// token: the record it holds, or why it does not hold one, which is the error
    /// `"invalid rollback token: <reason>"`. A record is undone as `rollback_plan` says.
    pub fn rollback_step(&self, decoded: Result<CgroupSnapshot, String>) -> (r: Result<RollbackStep, AppError>)
        ensures
            match decoded {
                Ok(record) => r matches Ok(s) && follows_rollback_plan(
                    s,
                    self.root(),
                    record.action@,
                    record.group@,
                    opt_view(record.previous_value),
                ),
                Err(reason) => r matches Err(AppError::Message(m)) && m@ == "invalid rollback token: "@ + reason@,
            },
    {
        match decoded {
            Err(e) => Err(AppError::Message(concat2("invalid rollback token: ", e.as_str()))),
            Ok(record) => Ok(self.plan(&record.action, &record.group, &record.previous_value)),
        }
    }

    /// Finishes a rollback with the outcome of its file write.
    pub fn finish_rollback(&self, pending: PendingRollback, write: Result<(), String>) -> (r: ActionResult)
        ensures
            rollback_result(
                r,
                pending.action@,
                match write {
                    Ok(()) => None,
                    Err(e) => Some(e@),
                },
            ),
            r.executed_at == pending.executed_at,
    {
        let duration_ms = elapsed_ms(&pending.started);
        let (status, message) = match &write {
            Ok(()) => (ActionStatus::Succeeded, Self::message(pending.action.as_str(), None)),
            Err(e) => (ActionStatus::Failed, Self::message(pending.action.as_str(), Some(e.as_str()))),
        };
        ActionResult {
            action_id: ActionId::from_string("rollback"),
            status,
            message,
            executed_at: pending.executed_at,
            duration_ms,
            rollback: None,
        }
    }
}

/// Undo law: undoing a recorded file replacement (a cpu.max or memory.max change, a
/// freeze or a thaw) writes the recorded previous value, or `max` when none was recorded,
/// back to the very file that the executor's plan wrote.
pub proof fn lemma_rollback_restores_replaced_file(
    root: Seq<char>,
    kind: ActionKind,
    previous: Option<Seq<char>>,
)
    requires
        kind is CgroupSetCpuMax || kind is CgroupSetMemoryMax || kind is ProcessFreezeGroup
            || kind is ProcessThawGroup,
    ensures
        plan_for(root, kind) matches CgroupPlanView::Replace { file, group, snapshot_action, .. }
            && rollback_plan(root, snapshot_action, group, previous) == (RollbackPlanView::Restore {
                file,
                content: match previous {
                    Some(p) => p,
                    None => "max"@,
                },
            }),
{
    reveal_strlit("set_cpu_max");
    reveal_strlit("set_memory_max");
    reveal_strlit("freeze");
    reveal_strlit("thaw");
    reveal_strlit("cpu.max");
    reveal_strlit("memory.max");
    reveal_strlit("cgroup.freeze");
    assert("set_memory_max"@ != "set_cpu_max"@) by {
        assert("set_memory_max"@.len() != "set_cpu_max"@.len());
    }
    assert("freeze"@ != "set_cpu_max"@) by {
        assert("freeze"@.len() != "set_cpu_max"@.len());
    }
    assert("freeze"@ != "set_memory_max"@) by {
        assert("freeze"@.len() != "set_memory_max"@.len());
    }
    assert("thaw"@ != "set_cpu_max"@) by {
        assert("thaw"@.len() != "set_cpu_max"@.len());
    }
    assert("thaw"@ != "set_memory_max"@) by {
        assert("thaw"@.len() != "set_memory_max"@.len());
    }
}


/// Freeze and thaw are opposites on the same file: for any root and group, the freeze
/// plan and the thaw plan both replace the group's `cgroup.freeze`, the freeze plan
/// writing `1` (frozen) and the thaw plan `0` (thawed), and each records its old content
/// so that it can be undone.
pub proof fn lemma_freeze_and_thaw_are_opposite(root: Seq<char>, group: String)
    ensures
        plan_for(root, ActionKind::ProcessFreezeGroup { group }) matches CgroupPlanView::Replace {
            file: freeze_file,
            read_from: freeze_read,
            value: freeze_value,
            ..
        } && plan_for(root, ActionKind::ProcessThawGroup { group }) matches CgroupPlanView::Replace {
            file: thaw_file,
            read_from: thaw_read,
            value: thaw_value,
            ..
        } && freeze_file == thaw_file && freeze_file == join_path(join_path(root, group@), "cgroup.freeze"@)
            && freeze_read == freeze_file && thaw_read == thaw_file
            && freeze_value == "1"@ && thaw_value == "0"@ && freeze_value != thaw_value,
{
    reveal_strlit("1");
    reveal_strlit("0");
    assert("1"@[0] != "0"@[0]);
}

} // verus!
