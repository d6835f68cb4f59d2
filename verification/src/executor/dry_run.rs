//! The dry-run executor: records actions as performed without performing them.
use vstd::prelude::*;
use crate::application::AppError;
use crate::clock::now_utc;
use crate::domain::action::{ActionResult, ActionStatus, ApprovedAction};
use crate::domain::render::{kind_text, push_kind_text, safety_debug, safety_text};
use crate::executor::traits::ApprovedActionExecutor;

verus! {

/// The message of a dry run of `action`: `"dry-run: <kind> (safety=<level>)"`.
pub open spec fn dry_run_message(action: ApprovedAction) -> Seq<char> {
    "dry-run: "@ + kind_text(action.request.kind) + " (safety="@ + safety_text(
        action.request.safety_level,
    ) + ")"@
}

/// Default executor. Every action is reported as `DryRun`; nothing is executed.
#[derive(Debug)]
pub struct DryRunExecutor;

impl DryRunExecutor {
    pub fn new() -> (e: Self) {
        DryRunExecutor
    }

    /// The dry-run record of `action`.
    pub fn dry_run_result(&self, action: &ApprovedAction) -> (r: ActionResult)
        ensures
            r.action_id == action.request.id,
            r.status == ActionStatus::DryRun,
            r.message@ == dry_run_message(*action),
            crate::clock::is_timestamp(r.executed_at@),
            r.duration_ms == 0,
            r.rollback.is_none(),
    {
        let now = now_utc();
        let mut message = String::new();
        message.append("dry-run: ");
        push_kind_text(&mut message, &action.request.kind);
        message.append(" (safety=");
        message.append(safety_debug(&action.request.safety_level));
        message.append(")");
        ActionResult {
            action_id: action.request.id.clone(),
            status: ActionStatus::DryRun,
            message,
            executed_at: now,
            duration_ms: 0,
            rollback: None,
        }
    }
}

impl Default for DryRunExecutor {
    fn default() -> (e: Self) {
        DryRunExecutor::new()
    }
}

impl ApprovedActionExecutor for DryRunExecutor {
    /// Always succeeds with the dry-run record of the action.
    fn execute(&self, action: ApprovedAction) -> (r: Result<ActionResult, AppError>)
        ensures
            r matches Ok(res) && res.action_id == action.request.id
                && res.status == ActionStatus::DryRun
                && res.message@ == dry_run_message(action)
                && crate::clock::is_timestamp(res.executed_at@)
                && res.duration_ms == 0
                && res.rollback.is_none(),
    {
        Ok(self.dry_run_result(&action))
    }
}

} // verus!
