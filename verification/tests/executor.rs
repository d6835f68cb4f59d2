use agenticos::domain::action::{
    ActionKind, ActionRequest, ActionSafetyLevel, ActionStatus, ApprovedAction,
};
use agenticos::executor::action_executor::{
    DefaultActionExecutor, NoopCloneRepositoryExecutor, NoopCreateDirectoryExecutor,
    NoopLaunchAppExecutor, NoopOpenUrlExecutor, NoopRunCommandExecutor,
};
use agenticos::executor::dry_run::DryRunExecutor;
use agenticos::executor::linux::{CgroupRollbackManager, CgroupSnapshot, CgroupStep, LinuxCgroupExecutor, RollbackStep};
use agenticos::executor::traits::ApprovedActionExecutor;
use agenticos::ids::{ActionId, DecisionId};

fn approved_action(kind: ActionKind) -> ApprovedAction {
    ApprovedAction {
        request: ActionRequest {
            id: ActionId::from_string("test-action"),
            kind,
            safety_level: ActionSafetyLevel::LowRisk,
        },
        decision_id: DecisionId::from_string("test-decision"),
    }
}

#[test]
fn launch_app_executor_succeeds() {
    let executor = NoopLaunchAppExecutor::new();
    let action = approved_action(ActionKind::LaunchApplication { application: "firefox".into() });
    let result = executor.execute(action).unwrap();
    assert_eq!(result.status, ActionStatus::Succeeded);
    assert!(result.message.contains("firefox"));
    assert!(result.rollback.is_some());
}

#[test]
fn open_url_executor_succeeds() {
    let executor = NoopOpenUrlExecutor::new();
    let action = approved_action(ActionKind::OpenUrl { url: "https://example.com".into() });
    let result = executor.execute(action).unwrap();
    assert_eq!(result.status, ActionStatus::Succeeded);
    assert!(result.message.contains("example.com"));
}

#[test]
fn create_directory_executor_succeeds() {
    let executor = NoopCreateDirectoryExecutor::new();
    let action = approved_action(ActionKind::CreateDirectory { path: "/tmp/test".into() });
    let result = executor.execute(action).unwrap();
    assert_eq!(result.status, ActionStatus::Succeeded);
    assert!(result.rollback.is_some());
}

#[test]
fn clone_repository_executor_succeeds() {
    let executor = NoopCloneRepositoryExecutor::new();
    let action = approved_action(ActionKind::CloneRepository {
        url: "https://github.com/user/repo.git".into(),
        directory: "/tmp/repo".into(),
    });
    let result = executor.execute(action).unwrap();
    assert_eq!(result.status, ActionStatus::Succeeded);
    assert!(result.rollback.is_some());
}

#[test]
fn run_command_executor_succeeds() {
    let executor = NoopRunCommandExecutor::new();
    let action = approved_action(ActionKind::RunCommand { command: "ls".into(), args: "-la".into() });
    let result = executor.execute(action).unwrap();
    assert_eq!(result.status, ActionStatus::Succeeded);
    assert!(result.message.contains("ls"));
}

#[test]
fn default_executor_routes_correctly() {
    let executor = DefaultActionExecutor::new();

    let launch = executor
        .execute(approved_action(ActionKind::LaunchApplication { application: "vscode".into() }))
        .unwrap();
    assert_eq!(launch.status, ActionStatus::Succeeded);
    assert!(launch.message.contains("vscode"));

    let open = executor
        .execute(approved_action(ActionKind::OpenUrl { url: "https://github.com".into() }))
        .unwrap();
    assert_eq!(open.status, ActionStatus::Succeeded);
    assert!(open.message.contains("github.com"));

    let mkdir = executor
        .execute(approved_action(ActionKind::CreateDirectory { path: "/tmp/dir".into() }))
        .unwrap();
    assert_eq!(mkdir.status, ActionStatus::Succeeded);
    assert!(mkdir.message.contains("tmp/dir"));

    let clone = executor
        .execute(approved_action(ActionKind::CloneRepository {
            url: "https://github.com/user/repo.git".into(),
            directory: "/tmp/repo".into(),
        }))
        .unwrap();
    assert_eq!(clone.status, ActionStatus::Succeeded);
    assert!(clone.message.contains("repo.git"));

    let cmd = executor
        .execute(approved_action(ActionKind::RunCommand { command: "ls".into(), args: "-la".into() }))
        .unwrap();
    assert_eq!(cmd.status, ActionStatus::Succeeded);
    assert!(cmd.message.contains("ls"));
}

#[test]
fn default_executor_handles_open_file() {
    let executor = DefaultActionExecutor::new();
    let result = executor
        .execute(approved_action(ActionKind::OpenFile { path: "/tmp/test.txt".into() }))
        .unwrap();
    assert_eq!(result.status, ActionStatus::Succeeded);
}

#[test]
fn default_executor_handles_create_project_workspace() {
    let executor = DefaultActionExecutor::new();
    let result = executor
        .execute(approved_action(ActionKind::CreateProjectWorkspace {
            project_name: "myproject".into(),
            framework: "nextjs".into(),
        }))
        .unwrap();
    assert_eq!(result.status, ActionStatus::Succeeded);
}

#[test]
fn dry_run_returns_dry_run_status() {
    let executor = DryRunExecutor::new();
    let action = ApprovedAction {
        request: ActionRequest {
            id: ActionId::from_string("test-action"),
            kind: ActionKind::CgroupCreate { name: "bench".into() },
            safety_level: ActionSafetyLevel::LowRisk,
        },
        decision_id: DecisionId::from_string("dec-1"),
    };

    let result = executor.execute(action).unwrap();
    assert_eq!(result.status, ActionStatus::DryRun);
    assert_eq!(result.action_id.as_str(), "test-action");
    assert!(result.message.contains("dry-run"));
    assert!(result.rollback.is_none());
}

#[test]
fn group_path_joins_correctly() {
    let ex = LinuxCgroupExecutor::new("/sys/fs/cgroup/agenticos".into());
    assert_eq!(
        std::path::PathBuf::from(ex.group_path("bench")),
        std::path::PathBuf::from("/sys/fs/cgroup/agenticos/bench")
    );
}

#[test]
fn observe_only_returns_success() {
    let ex = LinuxCgroupExecutor::new("/tmp/agenticos-test".into());
    let action = ApprovedAction {
        request: ActionRequest {
            id: ActionId::from_string("a1"),
            kind: ActionKind::ObserveOnly,
            safety_level: ActionSafetyLevel::ReadOnly,
        },
        decision_id: DecisionId::from_string("d1"),
    };
    let result = match ex.execute_step(action) {
        CgroupStep::Done(result) => result,
        CgroupStep::NeedIo(_) => panic!("observe-only needs no file-system work"),
    };
    assert_eq!(result.status, ActionStatus::Succeeded);
    assert!(!result.executed_at.is_empty());
    assert!(result.duration_ms < 1000);
}

#[test]
fn rollback_manager_handles_unknown_action() {
    let mgr = CgroupRollbackManager::new("/tmp".into());
    // The token `{"action":"unknown_stub","group":"test","previous_value":null}`, as read.
    let record = CgroupSnapshot { action: "unknown_stub".into(), group: "test".into(), previous_value: None };
    let result = match mgr.rollback_step(Ok(record)).unwrap() {
        RollbackStep::Done(result) => result,
        RollbackStep::NeedWrite(_) => panic!("an unknown action has nothing to restore"),
    };
    assert_eq!(result.status, ActionStatus::Failed);
    assert!(result.message.contains("unknown rollback action"));
}
