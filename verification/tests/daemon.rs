use agenticos::daemon::{
    build_metrics, disposition, error_envelope, labels, observation_envelope, observation_topic,
    stream_topic, Disposition, ExecutionTally,
};
use agenticos::domain::action::{ActionKind, ActionResult, ActionStatus, RollbackToken};
use agenticos::domain::decision::{Decision, DecisionOutcome, DenialReason};
use agenticos::domain::event::{EventPayload, IncidentCategory, IncidentSeverity};
use agenticos::domain::metrics::MetricValue;
use agenticos::domain::number::Real64;
use agenticos::domain::observation::{Observation, ObservationPayload, ObservationSource};
use agenticos::ids::{ActionId, AgentId, DecisionId, IdSource, ProposalId, TraceId};

fn decision(proposal: &str, outcome: DecisionOutcome) -> Decision {
    Decision {
        id: DecisionId::from_string("DecisionId-1"),
        proposal_id: ProposalId::from_string(proposal),
        decided_at: "0.000000000Z".into(),
        decided_by: AgentId::from_string("kernel"),
        outcome,
        explanation: String::new(),
    }
}

fn result(status: ActionStatus, token: bool) -> ActionResult {
    ActionResult {
        action_id: ActionId::from_string("a"),
        status,
        message: String::new(),
        executed_at: "0.000000000Z".into(),
        duration_ms: 0,
        rollback: if token { Some(RollbackToken { token: "{}".into() }) } else { None },
    }
}

#[test]
fn observation_topics_by_source() {
    assert_eq!(observation_topic(ObservationSource::Process), "observations.process");
    assert_eq!(observation_topic(ObservationSource::Cgroup), "observations.cgroup");
    assert_eq!(observation_topic(ObservationSource::Benchmark), "observations.benchmark");
    let mut ids = IdSource::new();
    let obs = Observation {
        id: ids.next_observation_id(),
        source: ObservationSource::Memory,
        observed_at: "1.000000000Z".into(),
        collection_duration_ms: 1,
        payload: ObservationPayload::Empty,
    };
    let e = observation_envelope(&obs, &TraceId::from_string("daemon-main"), &mut ids);
    assert_eq!(e.topic.as_str(), "observations.memory");
    assert_eq!(e.trace_id.as_str(), "daemon-main");
    assert_eq!(e.id.as_str(), "MessageId-1");
    assert!(matches!(e.payload, EventPayload::Observation(ref o) if o.id.as_str() == "ObservationId-1"));
}

#[test]
fn stream_topics_and_error_envelopes() {
    assert_eq!(stream_topic("proposals", "memory-agent").as_str(), "proposals.memory-agent");
    assert_eq!(stream_topic("incidents", IncidentCategory::Security.description()).as_str(), "incidents.security");
    let mut ids = IdSource::new();
    let e = error_envelope(&TraceId::from_string("t"), "observation failed: boom", &mut ids);
    assert_eq!(e.topic.as_str(), "system.error");
    match e.payload {
        EventPayload::Incident(i) => {
            assert_eq!(i.category, IncidentCategory::ExecutorFailure);
            assert_eq!(i.severity, IncidentSeverity::Error);
            assert_eq!(i.source_agent.as_str(), "daemon");
            assert_eq!(i.description, "observation failed: boom");
        }
        other => panic!("expected an incident, got {:?}", other),
    }
}

#[test]
fn daemon_metrics_shape() {
    let two = Real64(2.0f64.to_bits());
    let m = build_metrics(two, Real64(3.0f64.to_bits()), Real64(0), Real64(7.0f64.to_bits()));
    assert_eq!(m.source, "daemon.service");
    let names: Vec<&str> = m.samples.iter().map(|s| s.name.as_str()).collect();
    assert_eq!(names, vec!["active_agents", "proposal_queue_depth", "decision_latency_ms", "executor_latency_ms"]);
    assert!(matches!(m.samples[0].value, MetricValue::Gauge(v) if v == two));
    assert!(matches!(&m.samples[3].value, MetricValue::Histogram(h) if h.len() == 1 && f64::from_bits(h[0].0) == 7.0));
    assert_eq!(m.samples[1].labels[0].name, "service");
    assert_eq!(m.samples[1].labels[0].value, "daemon");
    assert_eq!(labels().len(), 1);
}

#[test]
fn dispositions_follow_safety_then_policy() {
    let safe = vec![ProposalId::from_string("p1"), ProposalId::from_string("p2")];
    assert_eq!(disposition(&decision("p1", DecisionOutcome::Approved), &safe), Disposition::Execute);
    assert_eq!(
        disposition(&decision("p2", DecisionOutcome::Denied { reason: DenialReason::UnsafeAction }), &safe),
        Disposition::Deny
    );
    assert_eq!(disposition(&decision("p2", DecisionOutcome::RequiresApproval), &safe), Disposition::Deny);
    assert_eq!(disposition(&decision("p3", DecisionOutcome::Approved), &safe), Disposition::SafetyVetoed);
    assert_eq!(disposition(&decision("p1", DecisionOutcome::Approved), &[]), Disposition::SafetyVetoed);
}

#[test]
fn tally_counts_executions_by_result_and_kind() {
    let mut t = ExecutionTally::new();
    let cpu_max = ActionKind::CgroupSetCpuMax { group: "g".into(), quota: "max".into() };
    let weight = ActionKind::CgroupSetCpuWeight { group: "g".into(), weight: 10 };
    t.record_execution(&cpu_max, &result(ActionStatus::Succeeded, true), 3);
    t.record_execution(&weight, &result(ActionStatus::Succeeded, false), 2);
    t.record_execution(&weight, &result(ActionStatus::Failed, false), 1);
    t.record_execution(&ActionKind::ObserveOnly, &result(ActionStatus::DryRun, false), 0);
    t.record_denial();
    t.record_execution_error();
    assert_eq!(
        t,
        ExecutionTally {
            approvals: 4,
            denials: 1,
            successful_mutations: 2,
            failed_mutations: 2,
            rollback_count: 1,
            cpu_weight_changes: 1,
            cpu_max_changes: 1,
            memory_max_changes: 0,
            executor_total_ms: 6,
        }
    );
}
