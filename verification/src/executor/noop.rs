//! Executors that perform nothing: every action is reported as `DryRun`.
use vstd::prelude::*;
use crate::application::AppError;
use crate::clock::{elapsed_ms, now_utc, start_timer};
use crate::domain::action::{ActionResult, ActionStatus, ApprovedAction, RollbackToken};
use crate::domain::render::{kind_text, push_kind_text};
use crate::executor::traits::{ApprovedActionExecutor, RollbackManager};
use crate::ids::ActionId;

verus! {

/// Executor for platforms without cgroup support. Reports every action as `DryRun`.
#[derive(Debug)]
pub struct NoopExecutor;

impl NoopExecutor {
    pub fn new() -> (e: Self) {
        NoopExecutor
    }
}

impl Default for NoopExecutor {
    fn default() -> (e: Self) {
        NoopExecutor::new()
    }
}

impl ApprovedActionExecutor for NoopExecutor {
    /// Always succeeds: `DryRun`, message `"noop (non-Linux): <kind>"`, no rollback.
    fn execute(&self, action: ApprovedAction) -> (r: Result<ActionResult, AppError>)
        ensures
            r matches Ok(res) && res.action_id == action.request.id
                && res.status == ActionStatus::DryRun
                && res.message@ == "noop (non-Linux): "@ + kind_text(action.request.kind)
                && crate::clock::is_timestamp(res.executed_at@)
                && res.rollback.is_none(),
    {
        let start = start_timer();
        let now = now_utc();
        let duration_ms = elapsed_ms(&start);
        let mut message = String::new();
        message.append("noop (non-Linux): ");
        push_kind_text(&mut message, &action.request.kind);
        Ok(ActionResult {
            action_id: action.request.id.clone(),
            status: ActionStatus::DryRun,
            message,
            executed_at: now,
            duration_ms,
            rollback: None,
        })
    }
}

/// Rollback manager for platforms without cgroup support.
#[derive(Debug)]
pub struct NoopRollbackManager;

impl NoopRollbackManager {
    pub fn new() -> (m: Self) {
        NoopRollbackManager
    }
}

impl RollbackManager for NoopRollbackManager {
    /// Always succeeds: action id `"rollback"`, `DryRun`, message
    /// `"noop rollback (non-Linux)"`, zero duration, no rollback.
    fn rollback(&self, token: RollbackToken) -> (r: Result<ActionResult, AppError>)
        ensures
            r matches Ok(res) && res.action_id@ == "rollback"@
                && res.status == ActionStatus::DryRun
                && res.message@ == "noop rollback (non-Linux)"@
                && crate::clock::is_timestamp(res.executed_at@)
                && res.duration_ms == 0
                && res.rollback.is_none(),
    {
        let now = now_utc();
        Ok(ActionResult {
            action_id: ActionId::from_string("rollback"),
            status: ActionStatus::DryRun,
            message: "noop rollback (non-Linux)".to_owned(),
            executed_at: now,
            duration_ms: 0,
            rollback: None,
        })
    }
}

} // verus!
