use agenticos::application::AppError;
use agenticos::domain::action::{ActionResult, ActionStatus};
use agenticos::domain::decision::{Decision, DecisionOutcome, DenialReason};
use agenticos::domain::event::{IncidentCategory, IncidentSeverity};
use agenticos::ids::{ActionId, AgentId, DecisionId, IdSource, ProposalId};
use agenticos::scenarios::{escalation_chain_incidents, mutation_status};

fn decision(proposal: &str, outcome: DecisionOutcome) -> Decision {
    Decision {
        id: DecisionId::from_string("d"),
        proposal_id: ProposalId::from_string(proposal),
        decided_at: "0.000000000Z".into(),
        decided_by: AgentId::from_string("kernel"),
        outcome,
        explanation: String::new(),
    }
}

#[test]
fn escalation_chain_escalates_then_persists() {
    let mut ids = IdSource::new();
    let t1 = escalation_chain_incidents(1, &mut ids);
    assert_eq!(t1.len(), 1);
    assert_eq!((t1[0].category, t1[0].severity), (IncidentCategory::Security, IncidentSeverity::Info));
    assert!(t1[0].correlation_id.is_none());
    let t2 = escalation_chain_incidents(2, &mut ids);
    assert_eq!(t2.len(), 2);
    assert_eq!(t2[1].category, IncidentCategory::ResourceContention);
    assert_eq!(t2[1].correlation_id.as_deref(), Some("tick-1-incident-0"));
    let t3 = escalation_chain_incidents(3, &mut ids);
    assert_eq!(t3.len(), 3);
    assert_eq!((t3[2].category, t3[2].severity), (IncidentCategory::ExecutorFailure, IncidentSeverity::Error));
    assert_eq!(t3[2].source_agent.as_str(), "executor");
    assert_eq!(t3[1].correlation_id.as_deref(), Some("tick-2-incident-1"));
    let t5 = escalation_chain_incidents(5, &mut ids);
    assert_eq!(t5.len(), 1);
    assert_eq!(t5[0].severity, IncidentSeverity::Critical);
    assert_eq!(t5[0].correlation_id.as_deref(), Some("tick-4-incident-0"));
    assert_eq!(t5[0].description, "ongoing security incident — all actions vetoed by governor");
    assert!(escalation_chain_incidents(6, &mut ids).is_empty());
    let ids_drawn: Vec<&str> = t1.iter().chain(t2.iter()).map(|i| i.incident_id.as_str()).collect();
    assert_eq!(ids_drawn, vec!["IncidentId-1", "IncidentId-2", "IncidentId-3"]);
}

#[test]
fn mutation_status_per_disposition() {
    let safe = vec![ProposalId::from_string("p1")];
    let ok = Ok(ActionResult {
        action_id: ActionId::from_string("a"),
        status: ActionStatus::Succeeded,
        message: String::new(),
        executed_at: "0.000000000Z".into(),
        duration_ms: 0,
        rollback: None,
    });
    let approved = decision("p1", DecisionOutcome::Approved);
    assert_eq!(mutation_status(&decision("p2", DecisionOutcome::Approved), &safe, None), "Vetoed");
    assert_eq!(
        mutation_status(&decision("p1", DecisionOutcome::Denied { reason: DenialReason::UnsafeAction }), &safe, None),
        "Denied"
    );
    assert_eq!(mutation_status(&decision("p1", DecisionOutcome::RequiresApproval), &safe, None), "Denied");
    assert_eq!(mutation_status(&approved, &safe, Some(&ok)), "Succeeded");
    let err: Result<ActionResult, AppError> = Err(AppError::Message("write failed".into()));
    assert_eq!(mutation_status(&approved, &safe, Some(&err)), "ExecutorError(application error: write failed)");
}
