use agenticos::bench::PipelineMode;
use agenticos::domain::action::{ActionKind, ActionRequest, ActionSafetyLevel};
use agenticos::domain::decision::{Decision, DecisionOutcome, DenialReason};
use agenticos::domain::proposal::{Confidence, Proposal};
use agenticos::ids::{ActionId, AgentId, DecisionId, ProposalId};
use agenticos::pipeline::{
    comparative_tick_result, count_approved, count_denied, pass_plan, planned_executions, workload_tick_counts, PassOutcome,
};

fn proposal(id: &str) -> Proposal {
    Proposal {
        id: ProposalId::from_string(id),
        agent_id: AgentId::from_string("process-agent"),
        created_at: "0.000000000Z".into(),
        based_on: vec![],
        requested_action: ActionRequest {
            id: ActionId::from_string(&format!("action-{id}")),
            kind: ActionKind::ObserveOnly,
            safety_level: ActionSafetyLevel::ReadOnly,
        },
        rationale: String::new(),
        confidence: Confidence(0),
    }
}

fn decision(id: &str, proposal: &str, outcome: DecisionOutcome) -> Decision {
    Decision {
        id: DecisionId::from_string(id),
        proposal_id: ProposalId::from_string(proposal),
        decided_at: "0.000000000Z".into(),
        decided_by: AgentId::from_string("kernel"),
        outcome,
        explanation: String::new(),
    }
}

fn decisions() -> Vec<Decision> {
    vec![
        decision("d1", "p1", DecisionOutcome::Approved),
        decision("d2", "p2", DecisionOutcome::Denied { reason: DenialReason::UnsafeAction }),
        decision("d3", "p3", DecisionOutcome::Approved),
        decision("d4", "p4", DecisionOutcome::RequiresApproval),
        decision("d5", "p5", DecisionOutcome::Approved),
    ]
}

#[test]
fn plan_executes_safe_approvals_in_order() {
    let ps = vec![proposal("p1"), proposal("p2"), proposal("p3"), proposal("p4")];
    let safe = vec![ProposalId::from_string("p1"), ProposalId::from_string("p2"), ProposalId::from_string("p5")];
    let plan = planned_executions(&ps, &decisions(), &safe);
    // p3 is approved but not safe; d5 has no paired proposal.
    assert_eq!(plan.len(), 1);
    assert_eq!(plan[0].decision_id.as_str(), "d1");
    assert_eq!(plan[0].request.id.as_str(), "action-p1");
    assert!(planned_executions(&ps, &[], &safe).is_empty());
}

#[test]
fn counts_of_approved_and_denied_decisions() {
    assert_eq!(count_approved(&decisions()), 3);
    assert_eq!(count_denied(&decisions()), 1);
    assert_eq!(count_approved(&[]), 0);
}

#[test]
fn comparative_counts_per_mode() {
    let pass = PassOutcome {
        proposals: vec![proposal("p1"), proposal("p2"), proposal("p3"), proposal("p4")],
        incident_count: 2,
        decisions: decisions(),
        safety_approved: vec![decision("d1", "p1", DecisionOutcome::Approved)],
        veto_count: 3,
    };
    let r = comparative_tick_result(PipelineMode::PolicyOnly, 9, &pass);
    assert_eq!(r.mode, "policy-only");
    assert_eq!((r.tick, r.decision_count, r.proposal_count, r.approved_count, r.denied_count), (9, 5, 0, 0, 0));
    let r = comparative_tick_result(PipelineMode::AgentsAndPolicy, 9, &pass);
    assert_eq!(r.mode, "agents+policy");
    assert_eq!((r.proposal_count, r.incident_count, r.approved_count, r.denied_count, r.veto_count, r.executor_count), (4, 2, 3, 1, 0, 0));
    let r = comparative_tick_result(PipelineMode::Full, 9, &pass);
    assert_eq!(r.mode, "full");
    assert_eq!((r.approved_count, r.denied_count, r.veto_count, r.executor_count), (1, 1, 3, 1));
    let c = workload_tick_counts(9, 12, &pass);
    assert_eq!((c.tick, c.obs_count, c.approved_count, c.denied_count, c.veto_count, c.executor_count), (9, 12, 1, 1, 3, 1));
}

#[test]
fn only_the_full_pipeline_executes() {
    let pass = PassOutcome {
        proposals: vec![proposal("p1"), proposal("p2"), proposal("p3")],
        incident_count: 0,
        decisions: decisions(),
        safety_approved: vec![
            decision("d1", "p1", DecisionOutcome::Approved),
            decision("d3", "p3", DecisionOutcome::Approved),
        ],
        veto_count: 0,
    };
    assert!(pass_plan(PipelineMode::PolicyOnly, &pass).is_empty());
    assert!(pass_plan(PipelineMode::AgentsAndPolicy, &pass).is_empty());
    let plan = pass_plan(PipelineMode::Full, &pass);
    let ids: Vec<&str> = plan.iter().map(|a| a.decision_id.as_str()).collect();
    assert_eq!(ids, vec!["d1", "d3"]);
    let r = comparative_tick_result(PipelineMode::Full, 1, &pass);
    assert_eq!(r.executor_count, 2);
    let r = comparative_tick_result(PipelineMode::AgentsAndPolicy, 1, &pass);
    assert_eq!(r.executor_count, 0);
    assert!(PipelineMode::Full.uses_safety() && PipelineMode::Full.uses_agents());
    assert!(!PipelineMode::AgentsAndPolicy.uses_safety() && PipelineMode::AgentsAndPolicy.uses_agents());
    assert!(!PipelineMode::PolicyOnly.uses_safety() && !PipelineMode::PolicyOnly.uses_agents());
}
