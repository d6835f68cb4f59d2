use agenticos::application::AppError;
use agenticos::domain::action::{ActionKind, ActionRequest, ActionResult, ActionSafetyLevel, ActionStatus, RollbackToken};
use agenticos::domain::proposal::{Confidence, Proposal};
use agenticos::execute_session::{error_payload, ExecuteSession, PolicyCheck, SessionRequest, SessionStage};
use agenticos::ids::{ActionId, AgentId, IdSource, ProposalId};

fn proposal(id: &str, kind: ActionKind) -> Proposal {
    Proposal {
        id: ProposalId::from_string(id),
        agent_id: AgentId::from_string("action-proposal-agent"),
        created_at: "0.000000000Z".into(),
        based_on: vec![],
        requested_action: ActionRequest {
            id: ActionId::from_string(&format!("a-{id}")),
            kind,
            safety_level: ActionSafetyLevel::LowRisk,
        },
        rationale: String::new(),
        confidence: Confidence(0),
    }
}

#[test]
fn governance_session_reports_each_proposal() {
    let mut ids = IdSource::new();
    let ps = vec![
        proposal("ProposalId-1", ActionKind::OpenUrl { url: "https://x".into() }),
        proposal("ProposalId-2", ActionKind::RunCommand { command: "rm".into(), args: "-rf".into() }),
        proposal("ProposalId-3", ActionKind::CreateDirectory { path: "/tmp/p".into() }),
        proposal("ProposalId-4", ActionKind::ObserveOnly),
    ];
    let (mut s, next) = ExecuteSession::start(ps);
    assert!(matches!(next, SessionRequest::CheckPolicy(0)));

    // 1: allowed by policy and safety, executed with an undo token.
    let step = s.policy_checked(PolicyCheck::Allow, &mut ids);
    assert_eq!(step.lines, vec!["  Action ProposalId: Policy ALLOW", "           Kind: OpenUrl { url: \"https://x\" }"]);
    assert!(matches!(step.next, SessionRequest::ValidateSafety(0)));
    let step = s.safety_checked(Ok(()));
    assert_eq!(step.lines, vec!["           Safety ALLOW"]);
    let action = match step.next {
        SessionRequest::Execute(a) => a,
        other => panic!("expected an execution, got {:?}", other),
    };
    assert_eq!(action.request.id.as_str(), "a-ProposalId-1");
    assert_eq!(action.decision_id.as_str(), "DecisionId-1");
    let result = Ok(ActionResult {
        action_id: ActionId::from_string("a-ProposalId-1"),
        status: ActionStatus::Succeeded,
        message: "opened".into(),
        executed_at: "1.000000000Z".into(),
        duration_ms: 3,
        rollback: Some(RollbackToken { token: "t1".into() }),
    });
    let step = s.executed(&result);
    assert_eq!(
        step.lines,
        vec!["           Executor CALLED — opened (Succeeded, 3ms)", "             rollback token: t1", ""]
    );
    assert!(matches!(step.next, SessionRequest::CheckPolicy(1)));

    // 2: denied by policy.
    let step = s.policy_checked(PolicyCheck::Deny("destructive command".into()), &mut ids);
    assert_eq!(
        step.lines,
        vec![
            "  Action ProposalId: Policy DENY — destructive command",
            "           Kind: RunCommand { command: \"rm\", args: \"-rf\" }",
            "           Executor SKIPPED",
            "",
        ]
    );
    assert!(matches!(step.next, SessionRequest::CheckPolicy(2)));

    // 3: allowed by policy, vetoed by safety.
    s.policy_checked(PolicyCheck::Allow, &mut ids);
    let step = s.safety_checked(Err("path outside workspace".into()));
    assert_eq!(step.lines, vec!["           Safety VETO — path outside workspace", "           Executor SKIPPED", ""]);

    // 4: the policy check fails.
    let step = s.policy_checked(PolicyCheck::Error(AppError::Message("no policy".into())), &mut ids);
    assert_eq!(
        step.lines,
        vec!["  Action ProposalId: Policy ERROR — application error: no policy", "           Executor SKIPPED", ""]
    );
    assert!(matches!(step.next, SessionRequest::Finish));
    assert_eq!(s.current_stage(), SessionStage::Done);
    assert_eq!(
        s.summary(),
        vec!["--- Summary ---", "  Total actions: 4", "  Policy ALLOW:  2", "  Executor calls: 1", "", "Pipeline complete."]
    );
}

#[test]
fn governance_guard_note_when_nothing_runs() {
    let mut ids = IdSource::new();
    let (mut s, _) = ExecuteSession::start(vec![proposal("p", ActionKind::ObserveOnly)]);
    s.policy_checked(PolicyCheck::Allow, &mut ids);
    s.safety_checked(Err("no".into()));
    assert_eq!(
        s.summary(),
        vec![
            "--- Summary ---",
            "  Total actions: 1",
            "  Policy ALLOW:  1",
            "  Executor calls: 0",
            "  Guard: Actions blocked by governance — executor never called.",
            "",
            "Pipeline complete.",
        ]
    );
    let (empty, next) = ExecuteSession::start(vec![]);
    assert!(matches!(next, SessionRequest::Finish));
    assert_eq!(empty.summary().len(), 6);
}

#[test]
fn failed_executions_are_reported_and_stored() {
    let mut ids = IdSource::new();
    let (mut s, _) = ExecuteSession::start(vec![proposal("x-1", ActionKind::ObserveOnly)]);
    s.policy_checked(PolicyCheck::Allow, &mut ids);
    s.safety_checked(Ok(()));
    let err = Err(AppError::Message("boom".into()));
    let step = s.executed(&err);
    assert_eq!(step.lines, vec!["           Executor CALLED — FAILED: application error: boom", ""]);
    assert_eq!(error_payload(&AppError::Message("boom".into())), "{\"error\":\"application error: boom\"}");
}
