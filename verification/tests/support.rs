use std::collections::HashMap;

use agenticos::application::AppError;
use agenticos::clock::{format_timestamp, now_utc};
use agenticos::config::{default_llm, default_privileged, AgenticosConfig, DaemonConfig, SafetyConfig};
use agenticos::console::{extract_proposal_id_from_msg, infer_agent_type, truncate};
use agenticos::domain::action::{ActionKind, ActionSafetyLevel};
use agenticos::domain::action_graph::{ActionEdge, ActionGraph, ActionMetadata, ActionNode};
use agenticos::domain::error::DomainError;
use agenticos::domain::event::{EventEnvelope, EventPayload, Incident, IncidentCategory, IncidentSeverity, Topic, TraceEvent};
use agenticos::domain::metrics::{MetricCollection, MetricValue};
use agenticos::domain::number::Real64;
use agenticos::domain::render::{kind_debug, safety_debug};
use agenticos::ids::{AgentId, IdSource, IntentId, PlanId, TraceId};
use agenticos::text::{concat3, with_decimal};

fn topic(s: &str) -> Topic {
    Topic::new(s.to_owned())
}

#[test]
fn topic_filters() {
    assert!(topic("observations.memory").matches(&topic("observations.memory")));
    assert!(!topic("observations.memory").matches(&topic("observations.cpu")));
    assert!(topic("anything.at.all").matches(&topic("*")));
    assert!(topic("observations").matches(&topic("observations.*")));
    assert!(topic("observations.cpu.detail").matches(&topic("observations.*")));
    assert!(!topic("observationsX").matches(&topic("observations.*")));
    assert!(!topic("other.cpu").matches(&topic("observations.*")));
    assert!(!topic("observations.cpu").matches(&topic("observations")));
}

#[test]
fn action_kinds_render_as_debug_does() {
    let kinds = vec![
        ActionKind::LaunchApplication { application: "fire\"fox\\".into() },
        ActionKind::CgroupSetCpuWeight { group: "g\n1".into(), weight: 42 },
        ActionKind::RunCommand { command: "echo".into(), args: "é ✓\t".into() },
        ActionKind::CgroupMovePid { group: "g".into(), pid: 7 },
        ActionKind::ObserveOnly,
        ActionKind::CreateProjectWorkspace { project_name: "p".into(), framework: "\u{1}".into() },
    ];
    for k in &kinds {
        assert_eq!(kind_debug(k), format!("{:?}", k));
    }
    assert_eq!(safety_debug(&ActionSafetyLevel::MediumRisk), "MediumRisk");
    assert_eq!(safety_debug(&ActionSafetyLevel::ReadOnly), format!("{:?}", ActionSafetyLevel::ReadOnly));
}

#[test]
fn error_messages() {
    assert_eq!(DomainError::InvalidState("x".into()).to_message(), "invalid domain state: x");
    assert_eq!(AppError::Message("boom".into()).to_message(), "application error: boom");
}

#[test]
fn metric_builders_append_labelled_samples() {
    let m = MetricCollection { samples: vec![], source: "test".into() }
        .with_incident_count(Real64(3.0f64.to_bits()))
        .with_classification_class("database", Real64(1.0f64.to_bits()))
        .with_classifications_skipped(4);
    assert_eq!(m.source, "test");
    assert_eq!(m.samples.len(), 3);
    assert_eq!(m.samples[0].name, "incident_count");
    assert_eq!(m.samples[0].labels[0].value, "daemon");
    assert_eq!(m.samples[1].name, "classification_database");
    assert_eq!(m.samples[1].labels[0].value, "intelligence");
    assert!(matches!(m.samples[2].value, MetricValue::Counter(4)));
    assert!(!m.samples[2].timestamp.is_empty());
}

#[test]
fn config_defaults_and_accessors() {
    assert!(!default_privileged());
    assert!(!default_llm());
    let safety = SafetyConfig::default();
    assert!(!safety.privileged_execution && !safety.llm_enabled);
    let config = DaemonConfig {
        agenticos: AgenticosConfig {
            mode: "benchmark".into(),
            event_store: "sqlite".into(),
            db_path: "/var/lib/agenticos.db".into(),
            policy: "policies/default.toml".into(),
        },
        safety,
    };
    assert_eq!(config.mode(), "benchmark");
    assert_eq!(config.event_store(), "sqlite");
    assert_eq!(config.db_path(), "/var/lib/agenticos.db");
    assert_eq!(config.policy_path(), "policies/default.toml");
}

#[test]
fn console_helpers() {
    assert_eq!(infer_agent_type("memory-agent"), "Memory");
    assert_eq!(infer_agent_type("proc-agent"), "Process");
    assert_eq!(infer_agent_type("security-agent"), "Security");
    assert_eq!(infer_agent_type("DummyAgentA"), "Dummy");
    assert_eq!(infer_agent_type("classifier"), "Unknown");
    assert_eq!(infer_agent_type("memproc"), "Memory");
    assert_eq!(truncate("short", 60), "short");
    assert_eq!(truncate("abcdef", 3), "abc...");
    assert_eq!(truncate("abc", 3), "abc");
    assert_eq!(
        extract_proposal_id_from_msg("veto proposal=ProposalId-42 reason=UnsafeAction explanation=x"),
        "ProposalId-42"
    );
    assert_eq!(extract_proposal_id_from_msg("proposal=P1"), "P1");
    assert_eq!(extract_proposal_id_from_msg("veto  reason=x"), "?");
    assert_eq!(extract_proposal_id_from_msg("xproposal=1 proposal=2"), "2");
}

#[test]
fn timestamps() {
    assert_eq!(format_timestamp(12, 5), "12.000000005Z");
    assert_eq!(format_timestamp(0, 999_999_999), "0.999999999Z");
    let now = now_utc();
    let (secs, rest) = now.split_once('.').expect("a timestamp has a dot");
    assert!(secs.chars().all(|c| c.is_ascii_digit()));
    assert_eq!(rest.len(), 10);
    assert!(rest.ends_with('Z'));
    assert!(secs.parse::<u64>().unwrap() > 1_600_000_000);
}

#[test]
fn identifier_sequences() {
    let mut ids = IdSource::new();
    assert_eq!(ids.next_proposal_id().as_str(), "ProposalId-1");
    assert_eq!(ids.next_proposal_id().as_str(), "ProposalId-2");
    assert_eq!(ids.next_action_id().as_str(), "ActionId-1");
    assert_eq!(ids.next_trace_id().as_str(), "TraceId-1");
    let mut wrapping = IdSource { proposal: u64::MAX, ..IdSource::new() };
    assert_eq!(wrapping.next_proposal_id().as_str(), "ProposalId-18446744073709551615");
    assert_eq!(wrapping.next_proposal_id().as_str(), "ProposalId-0");
    assert_eq!(with_decimal("n", 0), "n0");
    assert_eq!(concat3("a", "", "c"), "ac");
}

#[test]
fn prerequisite_and_dependent_mirror_each_other() {
    let mut ids = IdSource::new();
    let meta = |step: u32| ActionMetadata {
        source_step: step,
        source_plan_id: PlanId::from_string("PlanId-1"),
        source_intent_id: IntentId::from_string("IntentId-1"),
        tool: None,
        capability: None,
    };
    let a = ActionNode::new(ids.next_action_id(), ActionKind::ObserveOnly, HashMap::new(), meta(1));
    let b = ActionNode::new(ids.next_action_id(), ActionKind::ObserveOnly, HashMap::new(), meta(2));
    let c = ActionNode::new(ids.next_action_id(), ActionKind::ObserveOnly, HashMap::new(), meta(3));
    let edges = vec![
        ActionEdge { prerequisite_id: a.id.clone(), dependent_id: b.id.clone(), reason: "a before b".into() },
        ActionEdge { prerequisite_id: a.id.clone(), dependent_id: c.id.clone(), reason: "a before c".into() },
    ];
    let graph = ActionGraph::new(vec![a, b, c], edges, PlanId::from_string("PlanId-1"), IntentId::from_string("IntentId-1"));
    for x in &graph.nodes {
        for y in &graph.nodes {
            let x_before_y = graph.prerequisites_of(&y.id).iter().any(|n| n.id == x.id);
            let y_after_x = graph.dependents_of(&x.id).iter().any(|n| n.id == y.id);
            assert_eq!(x_before_y, y_after_x);
        }
    }
    assert_eq!(graph.dependents_of(&graph.nodes[0].id).len(), 2);
    assert_eq!(graph.prerequisites_of(&graph.nodes[0].id).len(), 0);
}

#[test]
fn clones_keep_contents() {
    let mut ids = IdSource::new();
    let incident = Incident::new(
        IncidentCategory::Security,
        IncidentSeverity::Warning,
        AgentId::from_string("security-agent"),
        None,
        "d".into(),
        &mut ids,
    )
    .with_correlation("c1".into());
    let env = EventEnvelope::new(topic("incidents.security"), TraceId::from_string("t"), EventPayload::Incident(incident), &mut ids)
        .with_causation(ids.next_message_id());
    let copy = env.clone();
    assert_eq!(copy.id.as_str(), env.id.as_str());
    assert_eq!(copy.causation_id.as_ref().map(|m| m.as_str().to_owned()), Some("MessageId-2".to_owned()));
    match (&copy.payload, &env.payload) {
        (EventPayload::Incident(a), EventPayload::Incident(b)) => {
            assert_eq!(a.incident_id.as_str(), b.incident_id.as_str());
            assert_eq!(a.correlation_id, Some("c1".to_owned()));
            assert_eq!(a.description, b.description);
        }
        _ => panic!("expected incidents"),
    }
    let trace = TraceEvent { message: "m".into() }.clone();
    assert_eq!(trace.message, "m");
}
