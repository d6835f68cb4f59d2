//! Action requests, results and their classifications.
use vstd::prelude::*;
use crate::ids::{ActionId, DecisionId};

verus! {

/// An action that an agent asks the system to perform.
#[derive(Debug)]
pub struct ActionRequest {
    pub id: ActionId,
    pub kind: ActionKind,
    pub safety_level: ActionSafetyLevel,
}

impl Clone for ActionRequest {
    fn clone(&self) -> (r: Self)
        ensures
            r == *self,
    {
        ActionRequest { id: self.id.clone(), kind: self.kind.clone(), safety_level: self.safety_level }
    }
}

/// An action request together with the decision that approved it.
#[derive(Debug)]
pub struct ApprovedAction {
    pub request: ActionRequest,
    pub decision_id: DecisionId,
}

impl Clone for ApprovedAction {
    fn clone(&self) -> (r: Self)
        ensures
            r == *self,
    {
        ApprovedAction { request: self.request.clone(), decision_id: self.decision_id.clone() }
    }
}

/// The outcome of executing (or rolling back) an action.
#[derive(Debug)]
pub struct ActionResult {
    pub action_id: ActionId,
    pub status: ActionStatus,
    pub message: String,
    pub executed_at: String,
    pub duration_ms: u64,
    pub rollback: Option<RollbackToken>,
}

/// The operation an action performs.
#[derive(Debug, PartialEq, Eq)]
pub enum ActionKind {
    CgroupCreate { name: String },
    CgroupSetCpuMax { group: String, quota: String },
    CgroupSetCpuWeight { group: String, weight: u64 },
    CgroupSetMemoryMax { group: String, bytes: u64 },
    CgroupMovePid { group: String, pid: u32 },
    ProcessFreezeGroup { group: String },
    ProcessThawGroup { group: String },
    ProcessTerminateGroup { group: String },
    WorkloadClassifyRecommend { group: String, classification: String },
    ObserveOnly,
    LaunchApplication { application: String },
    OpenUrl { url: String },
    RunCommand { command: String, args: String },
    CreateDirectory { path: String },
    OpenFile { path: String },
    CloneRepository { url: String, directory: String },
    CreateProjectWorkspace { project_name: String, framework: String },
}

impl Clone for ActionKind {
    fn clone(&self) -> (r: Self)
        ensures
            r == *self,
    {
        match self {
            ActionKind::CgroupCreate { name } => ActionKind::CgroupCreate { name: name.clone() },
            ActionKind::CgroupSetCpuMax { group, quota } => ActionKind::CgroupSetCpuMax {
                group: group.clone(),
                quota: quota.clone(),
            },
            ActionKind::CgroupSetCpuWeight { group, weight } => ActionKind::CgroupSetCpuWeight {
                group: group.clone(),
                weight: *weight,
            },
            ActionKind::CgroupSetMemoryMax { group, bytes } => ActionKind::CgroupSetMemoryMax {
                group: group.clone(),
                bytes: *bytes,
            },
            ActionKind::CgroupMovePid { group, pid } => ActionKind::CgroupMovePid {
                group: group.clone(),
                pid: *pid,
            },
            ActionKind::ProcessFreezeGroup { group } => ActionKind::ProcessFreezeGroup {
                group: group.clone(),
            },
            ActionKind::ProcessThawGroup { group } => ActionKind::ProcessThawGroup {
                group: group.clone(),
            },
            ActionKind::ProcessTerminateGroup { group } => ActionKind::ProcessTerminateGroup {
                group: group.clone(),
            },
            ActionKind::WorkloadClassifyRecommend { group, classification } =>
                ActionKind::WorkloadClassifyRecommend {
                    group: group.clone(),
                    classification: classification.clone(),
                },
            ActionKind::ObserveOnly => ActionKind::ObserveOnly,
            ActionKind::LaunchApplication { application } => ActionKind::LaunchApplication {
                application: application.clone(),
            },
            ActionKind::OpenUrl { url } => ActionKind::OpenUrl { url: url.clone() },
            ActionKind::RunCommand { command, args } => ActionKind::RunCommand {
                command: command.clone(),
                args: args.clone(),
            },
            ActionKind::CreateDirectory { path } => ActionKind::CreateDirectory {
                path: path.clone(),
            },
            ActionKind::OpenFile { path } => ActionKind::OpenFile { path: path.clone() },
            ActionKind::CloneRepository { url, directory } => ActionKind::CloneRepository {
                url: url.clone(),
                directory: directory.clone(),
            },
            ActionKind::CreateProjectWorkspace { project_name, framework } =>
                ActionKind::CreateProjectWorkspace {
                    project_name: project_name.clone(),
                    framework: framework.clone(),
                },
        }
    }
}

/// How much risk an action carries.
#[derive(Clone, Copy, Debug, PartialEq, Eq, Structural)]
pub enum ActionSafetyLevel {
    ReadOnly,
    LowRisk,
    MediumRisk,
    HighRisk,
}

/// Where an action stands in its lifecycle.
#[derive(Clone, Copy, Debug, PartialEq, Eq, Structural)]
pub enum ActionStatus {
    Pending,
    Proposed,
    Approved,
    Denied,
    Executing,
    Succeeded,
    Failed,
    RolledBack,
    DryRun,
}

/// Opaque text from which an executed action can be undone.
#[derive(Debug, PartialEq, Eq)]
pub struct RollbackToken {
    pub token: String,
}

impl Clone for ActionResult {
    fn clone(&self) -> (r: Self)
        ensures
            r == *self,
    {
        ActionResult {
            action_id: self.action_id.clone(),
            status: self.status,
            message: self.message.clone(),
            executed_at: self.executed_at.clone(),
            duration_ms: self.duration_ms,
            rollback: match &self.rollback {
                Some(t) => Some(t.clone()),
                None => None,
            },
        }
    }
}

impl Clone for RollbackToken {
    fn clone(&self) -> (r: Self)
        ensures
            r == *self,
    {
        RollbackToken { token: self.token.clone() }
    }
}

} // verus!
