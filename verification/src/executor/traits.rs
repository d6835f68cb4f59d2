//! The executor and rollback capabilities.
use vstd::prelude::*;
use crate::application::AppError;
use crate::domain::action::{ActionResult, ApprovedAction, RollbackToken};

verus! {

/// The only component permitted to mutate operating-system state. Implementations accept
/// only actions already approved by the policy kernel and report what they did.
pub trait ApprovedActionExecutor {
    fn execute(&self, action: ApprovedAction) -> Result<ActionResult, AppError>;
}

/// Capability to undo a previously executed action.
pub trait RollbackManager {
    fn rollback(&self, token: RollbackToken) -> Result<ActionResult, AppError>;
}

} // verus!
