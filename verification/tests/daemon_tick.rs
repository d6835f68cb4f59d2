use agenticos::application::AppError;
use agenticos::daemon_tick::{summary_line, DaemonTick, SafetyCounts, SafetyVerdict, TickRequest, TickStage, VetoNote};
use agenticos::domain::action::{ActionKind, ActionRequest, ActionResult, ActionSafetyLevel, ActionStatus, RollbackToken};
use agenticos::domain::decision::{Decision, DecisionOutcome, DenialReason};
use agenticos::domain::event::{EventPayload, Incident, IncidentCategory, IncidentSeverity};
use agenticos::domain::number::Real64;
use agenticos::domain::observation::{Observation, ObservationPayload, ObservationSource};
use agenticos::domain::proposal::{Confidence, Proposal};
use agenticos::domain::recommendation::Recommendation;
use agenticos::ids::{ActionId, AgentId, DecisionId, IdSource, ProposalId, TraceId};
use agenticos::pipeline::planned_executions;

fn proposal(id: &str, agent: &str, kind: ActionKind) -> Proposal {
    Proposal {
        id: ProposalId::from_string(id),
        agent_id: AgentId::from_string(agent),
        created_at: "0.000000000Z".into(),
        based_on: vec![],
        requested_action: ActionRequest {
            id: ActionId::from_string(&format!("action-{id}")),
            kind,
            safety_level: ActionSafetyLevel::LowRisk,
        },
        rationale: String::new(),
        confidence: Confidence(0.5f32.to_bits()),
    }
}

fn decision(id: &str, proposal: &str, outcome: DecisionOutcome) -> Decision {
    Decision {
        id: DecisionId::from_string(id),
        proposal_id: ProposalId::from_string(proposal),
        decided_at: "0.000000000Z".into(),
        decided_by: AgentId::from_string("kernel"),
        outcome,
        explanation: String::new(),
    }
}

fn result(status: ActionStatus, token: bool) -> ActionResult {
    ActionResult {
        action_id: ActionId::from_string("a"),
        status,
        message: String::new(),
        executed_at: "0.000000000Z".into(),
        duration_ms: 0,
        rollback: if token { Some(RollbackToken { token: "{}".into() }) } else { None },
    }
}

fn counts() -> SafetyCounts {
    SafetyCounts { veto_count: 1, safety_escalations: 1, freeze_ticks: 0, selective_vetoes: 1, global_vetoes: 0 }
}

fn observation(ids: &mut IdSource, source: ObservationSource) -> Observation {
    Observation {
        id: ids.next_observation_id(),
        source,
        observed_at: "1.000000000Z".into(),
        collection_duration_ms: 1,
        payload: ObservationPayload::Empty,
    }
}

/// Drives a tick up to the safety verdict and returns it with what was published so far.
fn tick_to_governing(ids: &mut IdSource) -> (DaemonTick, Vec<String>) {
    let mut topics: Vec<String> = Vec::new();
    let mut tick = DaemonTick::new(7, TraceId::from_string("daemon-main"));
    assert_eq!(tick.current_stage(), TickStage::Observing);

    let obs = vec![observation(ids, ObservationSource::Cpu), observation(ids, ObservationSource::Memory)];
    let out = tick.observed(&Ok(obs), ids);
    assert!(out.traced);
    assert!(matches!(out.next, TickRequest::Classify));
    topics.extend(out.publish.iter().map(|e| e.topic.as_str().to_owned()));

    let rec = Recommendation::new(AgentId::from_string("classifier"), Real64(0.5f64.to_bits()), "cpu".into(), String::new(), ids);
    let out = tick.classified(rec, &AgentId::from_string("classifier"), 11, 3, ids);
    assert!(matches!(out.next, TickRequest::CollectProposals));
    assert!(matches!(out.publish[0].payload, EventPayload::Recommendation(_)));
    topics.extend(out.publish.iter().map(|e| e.topic.as_str().to_owned()));

    let ps = vec![
        proposal("p1", "process-agent", ActionKind::CgroupSetCpuWeight { group: "g".into(), weight: 50 }),
        proposal("p2", "memory-agent", ActionKind::CgroupSetMemoryMax { group: "g".into(), bytes: 1024 }),
        proposal("p3", "process-agent", ActionKind::CgroupSetCpuMax { group: "g".into(), quota: "1 2".into() }),
        proposal("p4", "file-agent", ActionKind::ObserveOnly),
    ];
    let out = tick.proposals_collected(Ok(ps), ids);
    assert!(matches!(out.next, TickRequest::CollectIncidents));
    assert_eq!(tick.collected_proposals().len(), 4);
    topics.extend(out.publish.iter().map(|e| e.topic.as_str().to_owned()));

    let incidents = vec![Incident::new(
        IncidentCategory::Security,
        IncidentSeverity::Warning,
        AgentId::from_string("security-agent"),
        None,
        "pressure".into(),
        ids,
    )];
    let out = tick.incidents_collected(&Ok(incidents), ids);
    assert!(matches!(out.next, TickRequest::EvaluatePolicy));
    topics.extend(out.publish.iter().map(|e| e.topic.as_str().to_owned()));

    let ds = vec![
        decision("d1", "p1", DecisionOutcome::Approved),
        decision("d2", "p2", DecisionOutcome::Approved),
        decision("d3", "p3", DecisionOutcome::Denied { reason: DenialReason::BudgetExceeded }),
        decision("d4", "p4", DecisionOutcome::RequiresApproval),
    ];
    let out = tick.evaluated(Ok(ds), 5, ids);
    assert!(matches!(out.next, TickRequest::Govern));
    topics.extend(out.publish.iter().map(|e| e.topic.as_str().to_owned()));
    (tick, topics)
}

#[test]
fn tick_publishes_each_stage_on_its_topics() {
    let mut ids = IdSource::new();
    let (_tick, topics) = tick_to_governing(&mut ids);
    assert_eq!(
        topics,
        vec![
            "observations.cpu",
            "observations.memory",
            "recommendations.classifier",
            "proposals.process-agent",
            "proposals.memory-agent",
            "proposals.process-agent",
            "proposals.file-agent",
            "incidents.security",
            "decisions.process-agent",
            "decisions.memory-agent",
            "decisions.process-agent",
            "decisions.file-agent",
        ]
    );
}

#[test]
fn tick_executes_only_safe_approvals_and_tallies_them() {
    let mut ids = IdSource::new();
    let (mut tick, _) = tick_to_governing(&mut ids);
    let verdict = SafetyVerdict {
        // p2 is vetoed: approved by policy, but not passed by safety.
        approved: vec![ProposalId::from_string("p1"), ProposalId::from_string("p3"), ProposalId::from_string("p4")],
        vetoes: vec![VetoNote {
            proposal_id: ProposalId::from_string("p2"),
            reason_label: "memory_pressure".into(),
            reason_debug: "MemoryPressure".into(),
            explanation: "too close to the limit".into(),
        }],
        escalations: vec![Incident::new(
            IncidentCategory::GovernanceViolation,
            IncidentSeverity::Error,
            AgentId::from_string("safety"),
            None,
            "escalated".into(),
            &mut ids,
        )],
        counts: counts(),
    };
    let out = tick.governed(Ok(verdict), &mut ids);
    assert!(out.traced);
    assert_eq!(out.publish.len(), 2);
    assert_eq!(out.publish[0].topic.as_str(), "vetoes.memory_pressure");
    match &out.publish[0].payload {
        EventPayload::Trace(t) => assert_eq!(
            t.message,
            "veto proposal=p2 reason=MemoryPressure explanation=too close to the limit"
        ),
        other => panic!("expected a trace, got {:?}", other),
    }
    assert_eq!(out.publish[1].topic.as_str(), "incidents.governance-violation");
    let action = match out.next {
        TickRequest::Execute(a) => a,
        other => panic!("expected an execution, got {:?}", other),
    };
    assert_eq!(action.decision_id.as_str(), "d1");
    assert_eq!(action.request.id.as_str(), "action-p1");
    assert_eq!(tick.current_stage(), TickStage::Executing);

    // p1 succeeds with an undo token; p2 is skipped (vetoed); p3 and p4 are denials.
    let out = tick.executed(Ok(result(ActionStatus::Succeeded, true)), 4, &mut ids);
    assert!(out.traced);
    assert_eq!(out.publish.len(), 1);
    assert_eq!(out.publish[0].topic.as_str(), "results.process-agent");
    assert!(matches!(out.next, TickRequest::Report));
    assert_eq!(tick.current_stage(), TickStage::Reporting);

    let report = tick.report();
    assert_eq!(report.proposal_depth, 4);
    assert_eq!(report.incident_count, 1);
    assert_eq!(report.decision_ms, 5);
    assert_eq!(report.classifications_skipped, 3);
    assert_eq!(report.safety, counts());
    assert_eq!(report.tally.approvals, 1);
    assert_eq!(report.tally.denials, 2);
    assert_eq!(report.tally.successful_mutations, 1);
    assert_eq!(report.tally.cpu_weight_changes, 1);
    assert_eq!(report.tally.rollback_count, 1);
    assert_eq!(report.tally.failed_mutations, 0);
    assert_eq!(report.tally.executor_total_ms, 4);
    assert_eq!(report.obs_count, 2);
    assert_eq!(report.recommendation_count, 11);
    assert_eq!(report.veto_count, 1);
    assert_eq!(
        summary_line(&report, 9),
        "[agenticos] observe=2 proposals=4 incidents=1 vetoes=1 approved=1 denied=2 mutations=1 failed_muts=0 \
         rollbacks=1 recs=11 skipped=3 tick=9ms decision_latency=5ms exec_latency=4ms"
    );
}

#[test]
fn execution_errors_are_published_untraced_and_counted_as_failures() {
    let mut ids = IdSource::new();
    let (mut tick, _) = tick_to_governing(&mut ids);
    let verdict = SafetyVerdict {
        approved: vec![ProposalId::from_string("p1"), ProposalId::from_string("p2")],
        vetoes: vec![],
        escalations: vec![],
        counts: SafetyCounts { veto_count: 0, safety_escalations: 0, freeze_ticks: 0, selective_vetoes: 0, global_vetoes: 0 },
    };
    let out = tick.governed(Ok(verdict), &mut ids);
    assert!(out.publish.is_empty());
    assert!(matches!(out.next, TickRequest::Execute(ref a) if a.decision_id.as_str() == "d1"));

    let out = tick.executed(Err(AppError::Message("cgroup missing".into())), 1, &mut ids);
    assert!(!out.traced);
    assert_eq!(out.publish[0].topic.as_str(), "system.error");
    match &out.publish[0].payload {
        EventPayload::Incident(i) => {
            assert_eq!(i.description, "execution failed: application error: cgroup missing");
            assert_eq!(i.category, IncidentCategory::ExecutorFailure);
        }
        other => panic!("expected an incident, got {:?}", other),
    }
    assert!(matches!(out.next, TickRequest::Execute(ref a) if a.decision_id.as_str() == "d2"));

    let out = tick.executed(Ok(result(ActionStatus::Failed, false)), 2, &mut ids);
    assert_eq!(out.publish[0].topic.as_str(), "results.memory-agent");
    assert!(matches!(out.next, TickRequest::Report));
    let report = tick.report();
    assert_eq!(report.tally.approvals, 1);
    assert_eq!(report.tally.failed_mutations, 2);
    assert_eq!(report.tally.successful_mutations, 0);
    // p3 and p4 did not pass safety: neither executed nor denied.
    assert_eq!(report.tally.denials, 0);
    // The time of a failed execution call is not counted.
    assert_eq!(report.tally.executor_total_ms, 2);
}

#[test]
fn component_errors_abandon_the_tick() {
    let mut ids = IdSource::new();
    let mut tick = DaemonTick::new(1, TraceId::from_string("daemon-main"));
    let out = tick.observed(&Err(AppError::Message("no /proc".into())), &mut ids);
    assert!(matches!(out.next, TickRequest::Abandon));
    assert!(!out.traced);
    assert_eq!(out.publish.len(), 1);
    assert_eq!(out.publish[0].topic.as_str(), "system.error");
    match &out.publish[0].payload {
        EventPayload::Incident(i) => assert_eq!(i.description, "observation failed: application error: no /proc"),
        other => panic!("expected an incident, got {:?}", other),
    }
    assert_eq!(tick.current_stage(), TickStage::Abandoned);

    let mut ids = IdSource::new();
    let (mut tick, _) = tick_to_governing(&mut ids);
    let out = tick.governed(Err(AppError::Message("frozen".into())), &mut ids);
    assert!(matches!(out.next, TickRequest::Abandon));
    match &out.publish[0].payload {
        EventPayload::Incident(i) => assert_eq!(i.description, "safety governor failed: application error: frozen"),
        other => panic!("expected an incident, got {:?}", other),
    }
}

#[test]
fn decisions_pair_with_proposals_as_far_as_both_go() {
    let mut ids = IdSource::new();
    let mut tick = DaemonTick::new(2, TraceId::from_string("t"));
    tick.observed(&Ok(vec![]), &mut ids);
    let rec = Recommendation::new(AgentId::from_string("c"), Real64(0), String::new(), String::new(), &mut ids);
    tick.classified(rec, &AgentId::from_string("c"), 0, 0, &mut ids);
    tick.proposals_collected(Ok(vec![proposal("p1", "a", ActionKind::ObserveOnly)]), &mut ids);
    tick.incidents_collected(&Ok(vec![]), &mut ids);
    let out = tick.evaluated(
        Ok(vec![decision("d1", "p1", DecisionOutcome::Approved), decision("d2", "p9", DecisionOutcome::Approved)]),
        0,
        &mut ids,
    );
    assert_eq!(out.publish.len(), 1);
    assert_eq!(tick.collected_decisions().len(), 2);
    let verdict = SafetyVerdict {
        approved: vec![ProposalId::from_string("p1"), ProposalId::from_string("p9")],
        vetoes: vec![],
        escalations: vec![],
        counts: SafetyCounts { veto_count: 0, safety_escalations: 0, freeze_ticks: 0, selective_vetoes: 0, global_vetoes: 0 },
    };
    let out = tick.governed(Ok(verdict), &mut ids);
    assert!(matches!(out.next, TickRequest::Execute(ref a) if a.decision_id.as_str() == "d1"));
    let out = tick.executed(Ok(result(ActionStatus::Succeeded, false)), 0, &mut ids);
    // The unpaired decision d2 is never executed.
    assert!(matches!(out.next, TickRequest::Report));
    assert_eq!(tick.report().tally.approvals, 1);
}

#[test]
fn daemon_tick_executes_the_planned_actions_in_order() {
    let mut ids = IdSource::new();
    let (mut tick, _) = tick_to_governing(&mut ids);
    let safe = vec![ProposalId::from_string("p1"), ProposalId::from_string("p2"), ProposalId::from_string("p4")];
    let plan = planned_executions(tick.collected_proposals(), tick.collected_decisions(), &safe);
    let verdict = SafetyVerdict { approved: safe.clone(), vetoes: vec![], escalations: vec![], counts: counts() };
    let mut next = tick.governed(Ok(verdict), &mut ids).next;
    let mut executed = Vec::new();
    while let TickRequest::Execute(action) = next {
        executed.push(action.decision_id.as_str().to_owned());
        next = tick.executed(Ok(result(ActionStatus::Succeeded, false)), 0, &mut ids).next;
    }
    let planned: Vec<String> = plan.iter().map(|a| a.decision_id.as_str().to_owned()).collect();
    assert_eq!(executed, planned);
    assert_eq!(executed, vec!["d1", "d2"]);
}
