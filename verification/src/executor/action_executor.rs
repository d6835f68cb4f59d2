//! Executors for desktop and productivity actions (performing nothing), and the
//! router that dispatches approved actions to them by kind.
use vstd::prelude::*;
use crate::application::AppError;
use crate::clock::{elapsed_ms, now_utc, start_timer};
use crate::domain::action::{ActionKind, ActionResult, ActionStatus, ApprovedAction, RollbackToken};
use crate::domain::render::{kind_text, push_kind_text};
use crate::executor::traits::ApprovedActionExecutor;

verus! {

/// What executing `action` with `NoopLaunchAppExecutor` yields: for a `LaunchApplication` action, success with
/// message `noop launch application: <application>` and rollback token `kill-<application>`;
/// for any other kind, the error `"expected LaunchApplication"`.
pub open spec fn launch_outcome(action: ApprovedAction, r: Result<ActionResult, AppError>) -> bool {
    match action.request.kind {
        ActionKind::LaunchApplication { application } => r matches Ok(res) && res.action_id == action.request.id
            && res.status == ActionStatus::Succeeded
            && res.message@ == "noop launch application: "@ + application@
            && crate::clock::is_timestamp(res.executed_at@)
            && (res.rollback matches Some(t) && t.token@ == "kill-"@ + application@),
        _ => r matches Err(AppError::Message(m)) && m@ == "expected LaunchApplication"@,
    }
}

/// Executes `LaunchApplication` actions (performing nothing).
#[derive(Debug)]
pub struct NoopLaunchAppExecutor;

impl NoopLaunchAppExecutor {
    pub fn new() -> (e: Self) {
        NoopLaunchAppExecutor
    }
}

impl ApprovedActionExecutor for NoopLaunchAppExecutor {
    fn execute(&self, action: ApprovedAction) -> (r: Result<ActionResult, AppError>)
        ensures
            launch_outcome(action, r),
    {
        let start = start_timer();
        match &action.request.kind {
            ActionKind::LaunchApplication { application } => {
                let mut message = String::new();
                message.append("noop launch application: ");
                message.append(application.as_str());
                let mut token = String::new();
                token.append("kill-");
                token.append(application.as_str());
                let executed_at = now_utc();
                let duration_ms = elapsed_ms(&start);
                Ok(ActionResult {
                    action_id: action.request.id.clone(),
                    status: ActionStatus::Succeeded,
                    message,
                    executed_at,
                    duration_ms,
                    rollback: Some(RollbackToken { token }),
                })
            },
            _ => Err(AppError::Message("expected LaunchApplication".to_owned())),
        }
    }
}

/// What executing `action` with `NoopOpenUrlExecutor` yields: for a `OpenUrl` action, success with
/// message `noop open url: <url>` and no rollback token;
/// for any other kind, the error `"expected OpenUrl"`.
pub open spec fn open_url_outcome(action: ApprovedAction, r: Result<ActionResult, AppError>) -> bool {
    match action.request.kind {
        ActionKind::OpenUrl { url } => r matches Ok(res) && res.action_id == action.request.id
            && res.status == ActionStatus::Succeeded
            && res.message@ == "noop open url: "@ + url@
            && crate::clock::is_timestamp(res.executed_at@)
            && res.rollback.is_none(),
        _ => r matches Err(AppError::Message(m)) && m@ == "expected OpenUrl"@,
    }
}

/// Executes `OpenUrl` actions (performing nothing).
#[derive(Debug)]
pub struct NoopOpenUrlExecutor;

impl NoopOpenUrlExecutor {
    pub fn new() -> (e: Self) {
        NoopOpenUrlExecutor
    }
}

impl ApprovedActionExecutor for NoopOpenUrlExecutor {
    fn execute(&self, action: ApprovedAction) -> (r: Result<ActionResult, AppError>)
        ensures
            open_url_outcome(action, r),
    {
        let start = start_timer();
        match &action.request.kind {
            ActionKind::OpenUrl { url } => {
                let mut message = String::new();
                message.append("noop open url: ");
                message.append(url.as_str());
                let executed_at = now_utc();
                let duration_ms = elapsed_ms(&start);
                Ok(ActionResult {
                    action_id: action.request.id.clone(),
                    status: ActionStatus::Succeeded,
                    message,
                    executed_at,
                    duration_ms,
                    rollback: None,
                })
            },
            _ => Err(AppError::Message("expected OpenUrl".to_owned())),
        }
    }
}

/// What executing `action` with `NoopCreateDirectoryExecutor` yields: for a `CreateDirectory` action, success with
/// message `noop create directory: <path>` and rollback token `rmdir-<path>`;
/// for any other kind, the error `"expected CreateDirectory"`.
pub open spec fn create_directory_outcome(action: ApprovedAction, r: Result<ActionResult, AppError>) -> bool {
    match action.request.kind {
        ActionKind::CreateDirectory { path } => r matches Ok(res) && res.action_id == action.request.id
            && res.status == ActionStatus::Succeeded
            && res.message@ == "noop create directory: "@ + path@
            && crate::clock::is_timestamp(res.executed_at@)
            && (res.rollback matches Some(t) && t.token@ == "rmdir-"@ + path@),
        _ => r matches Err(AppError::Message(m)) && m@ == "expected CreateDirectory"@,
    }
}

/// Executes `CreateDirectory` actions (performing nothing).
#[derive(Debug)]
pub struct NoopCreateDirectoryExecutor;

impl NoopCreateDirectoryExecutor {
    pub fn new() -> (e: Self) {
        NoopCreateDirectoryExecutor
    }
}

impl ApprovedActionExecutor for NoopCreateDirectoryExecutor {
    fn execute(&self, action: ApprovedAction) -> (r: Result<ActionResult, AppError>)
        ensures
            create_directory_outcome(action, r),
    {
        let start = start_timer();
        match &action.request.kind {
            ActionKind::CreateDirectory { path } => {
                let mut message = String::new();
                message.append("noop create directory: ");
                message.append(path.as_str());
                let mut token = String::new();
                token.append("rmdir-");
                token.append(path.as_str());
                let executed_at = now_utc();
                let duration_ms = elapsed_ms(&start);
                Ok(ActionResult {
                    action_id: action.request.id.clone(),
                    status: ActionStatus::Succeeded,
                    message,
                    executed_at,
                    duration_ms,
                    rollback: Some(RollbackToken { token }),
                })
            },
            _ => Err(AppError::Message("expected CreateDirectory".to_owned())),
        }
    }
}

/// What executing `action` with `NoopCloneRepositoryExecutor` yields: for a `CloneRepository` action, success with
/// message `noop clone repository: <url> -> <directory>` and rollback token `remove-<directory>`;
/// for any other kind, the error `"expected CloneRepository"`.
pub open spec fn clone_repository_outcome(action: ApprovedAction, r: Result<ActionResult, AppError>) -> bool {
    match action.request.kind {
        ActionKind::CloneRepository { url, directory } => r matches Ok(res) && res.action_id == action.request.id
            && res.status == ActionStatus::Succeeded
            && res.message@ == "noop clone repository: "@ + url@ + " -> "@ + directory@
            && crate::clock::is_timestamp(res.executed_at@)
            && (res.rollback matches Some(t) && t.token@ == "remove-"@ + directory@),
        _ => r matches Err(AppError::Message(m)) && m@ == "expected CloneRepository"@,
    }
}

/// Executes `CloneRepository` actions (performing nothing).
#[derive(Debug)]
pub struct NoopCloneRepositoryExecutor;

impl NoopCloneRepositoryExecutor {
    pub fn new() -> (e: Self) {
        NoopCloneRepositoryExecutor
    }
}

impl ApprovedActionExecutor for NoopCloneRepositoryExecutor {
    fn execute(&self, action: ApprovedAction) -> (r: Result<ActionResult, AppError>)
        ensures
            clone_repository_outcome(action, r),
    {
        let start = start_timer();
        match &action.request.kind {
            ActionKind::CloneRepository { url, directory } => {
                let mut message = String::new();
                message.append("noop clone repository: ");
                message.append(url.as_str());
                message.append(" -> ");
                message.append(directory.as_str());
                let mut token = String::new();
                token.append("remove-");
                token.append(directory.as_str());
                let executed_at = now_utc();
                let duration_ms = elapsed_ms(&start);
                Ok(ActionResult {
                    action_id: action.request.id.clone(),
                    status: ActionStatus::Succeeded,
                    message,
                    executed_at,
                    duration_ms,
                    rollback: Some(RollbackToken { token }),
                })
            },
            _ => Err(AppError::Message("expected CloneRepository".to_owned())),
        }
    }
}

/// What executing `action` with `NoopRunCommandExecutor` yields: for a `RunCommand` action, success with
/// message `noop run command: <command> <args>` and no rollback token;
/// for any other kind, the error `"expected RunCommand"`.
pub open spec fn run_command_outcome(action: ApprovedAction, r: Result<ActionResult, AppError>) -> bool {
    match action.request.kind {
        ActionKind::RunCommand { command, args } => r matches Ok(res) && res.action_id == action.request.id
            && res.status == ActionStatus::Succeeded
            && res.message@ == "noop run command: "@ + command@ + " "@ + args@
            && crate::clock::is_timestamp(res.executed_at@)
            && res.rollback.is_none(),
        _ => r matches Err(AppError::Message(m)) && m@ == "expected RunCommand"@,
    }
}

/// Executes `RunCommand` actions (performing nothing).
#[derive(Debug)]
pub struct NoopRunCommandExecutor;

impl NoopRunCommandExecutor {
    pub fn new() -> (e: Self) {
        NoopRunCommandExecutor
    }
}

impl ApprovedActionExecutor for NoopRunCommandExecutor {
    fn execute(&self, action: ApprovedAction) -> (r: Result<ActionResult, AppError>)
        ensures
            run_command_outcome(action, r),
    {
        let start = start_timer();
        match &action.request.kind {
            ActionKind::RunCommand { command, args } => {
                let mut message = String::new();
                message.append("noop run command: ");
                message.append(command.as_str());
                message.append(" ");
                message.append(args.as_str());
                let executed_at = now_utc();
                let duration_ms = elapsed_ms(&start);
                Ok(ActionResult {
                    action_id: action.request.id.clone(),
                    status: ActionStatus::Succeeded,
                    message,
                    executed_at,
                    duration_ms,
                    rollback: None,
                })
            },
            _ => Err(AppError::Message("expected RunCommand".to_owned())),
        }
    }
}

/// What `DefaultActionExecutor` yields for `action`: the outcome of the matching executor
/// for launch, open-url, create-directory, clone and run-command actions; success with
/// message `"noop: <kind>"` and no rollback token for open-file and create-workspace
/// actions; the error `"DefaultActionExecutor: unsupported action kind <kind>"` otherwise.
pub open spec fn default_outcome(action: ApprovedAction, r: Result<ActionResult, AppError>) -> bool {
    match action.request.kind {
        ActionKind::LaunchApplication { .. } => launch_outcome(action, r),
        ActionKind::OpenUrl { .. } => open_url_outcome(action, r),
        ActionKind::CreateDirectory { .. } => create_directory_outcome(action, r),
        ActionKind::CloneRepository { .. } => clone_repository_outcome(action, r),
        ActionKind::RunCommand { .. } => run_command_outcome(action, r),
        ActionKind::OpenFile { .. } | ActionKind::CreateProjectWorkspace { .. } => r matches Ok(res)
            && res.action_id == action.request.id
            && res.status == ActionStatus::Succeeded
            && res.message@ == "noop: "@ + kind_text(action.request.kind)
            && crate::clock::is_timestamp(res.executed_at@)
            && res.rollback.is_none(),
        _ => r matches Err(AppError::Message(m))
            && m@ == "DefaultActionExecutor: unsupported action kind "@ + kind_text(action.request.kind),
    }
}

/// Routes approved actions to the executor for their kind.
#[derive(Debug)]
pub struct DefaultActionExecutor {
    launch_app: NoopLaunchAppExecutor,
    open_url: NoopOpenUrlExecutor,
    create_directory: NoopCreateDirectoryExecutor,
    clone_repository: NoopCloneRepositoryExecutor,
    run_command: NoopRunCommandExecutor,
}

impl DefaultActionExecutor {
    pub fn new() -> (e: Self) {
        DefaultActionExecutor {
            launch_app: NoopLaunchAppExecutor::new(),
            open_url: NoopOpenUrlExecutor::new(),
            create_directory: NoopCreateDirectoryExecutor::new(),
            clone_repository: NoopCloneRepositoryExecutor::new(),
            run_command: NoopRunCommandExecutor::new(),
        }
    }
}

impl Default for DefaultActionExecutor {
    fn default() -> (e: Self) {
        DefaultActionExecutor::new()
    }
}

impl ApprovedActionExecutor for DefaultActionExecutor {
    fn execute(&self, action: ApprovedAction) -> (r: Result<ActionResult, AppError>)
        ensures
            default_outcome(action, r),
    {
        match &action.request.kind {
            ActionKind::LaunchApplication { .. } => self.launch_app.execute(action),
            ActionKind::OpenUrl { .. } => self.open_url.execute(action),
            ActionKind::CreateDirectory { .. } => self.create_directory.execute(action),
            ActionKind::CloneRepository { .. } => self.clone_repository.execute(action),
            ActionKind::RunCommand { .. } => self.run_command.execute(action),
            ActionKind::OpenFile { .. } | ActionKind::CreateProjectWorkspace { .. } => {
                let start = start_timer();
                let mut message = String::new();
                message.append("noop: ");
                push_kind_text(&mut message, &action.request.kind);
                let executed_at = now_utc();
                let duration_ms = elapsed_ms(&start);
                Ok(ActionResult {
                    action_id: action.request.id,
                    status: ActionStatus::Succeeded,
                    message,
                    executed_at,
                    duration_ms,
                    rollback: None,
                })
            },
            _ => {
                let mut message = String::new();
                message.append("DefaultActionExecutor: unsupported action kind ");
                push_kind_text(&mut message, &action.request.kind);
                Err(AppError::Message(message))
            },
        }
    }
}

} // verus!
