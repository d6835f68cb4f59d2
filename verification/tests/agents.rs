use std::collections::HashMap;

use agenticos::agents::action_proposal::{safety_level_for_kind, ActionProposalAgent};
use agenticos::agents::recommendation_consumer::{
    recommendation_to_proposals, RecommendationConsumerAgent,
};
use agenticos::agents::security::{max_cpu_pressure, pressure_band, PressureBand, SecurityAgent};
use agenticos::domain::action::{ActionKind, ActionSafetyLevel};
use agenticos::domain::action_graph::{ActionGraph, ActionMetadata, ActionNode};
use agenticos::domain::agent::AgentKind;
use agenticos::domain::event::{Incident, IncidentCategory};
use agenticos::domain::number::Real64;
use agenticos::domain::observation::{
    CpuObservation, Observation, ObservationPayload, ObservationSource, ProcessObservation,
};
use agenticos::domain::proposal::Confidence;
use agenticos::domain::recommendation::Recommendation;
use agenticos::bus::store::{InMemoryTraceStore, TraceStore};
use agenticos::domain::event::{EventEnvelope, EventPayload, Topic};
use agenticos::ids::{AgentId, IdSource, IntentId, ObservationId, PlanId};

fn sample_node(ids: &mut IdSource, step: u32, kind: ActionKind) -> ActionNode {
    ActionNode::new(
        ids.next_action_id(),
        kind,
        HashMap::new(),
        ActionMetadata {
            source_step: step,
            source_plan_id: PlanId::from_string("PlanId-1"),
            source_intent_id: IntentId::from_string("IntentId-1"),
            tool: None,
            capability: None,
        },
    )
}

fn sample_graph(nodes: Vec<ActionNode>) -> ActionGraph {
    ActionGraph::new(
        nodes,
        vec![],
        PlanId::from_string("PlanId-1"),
        IntentId::from_string("IntentId-1"),
    )
}

#[test]
fn propose_single_launch_action() {
    let mut ids = IdSource::new();
    let agent = ActionProposalAgent::new(AgentId::from_string("action-proposal-agent"));
    let node = sample_node(&mut ids, 1, ActionKind::LaunchApplication { application: "firefox".into() });
    let graph = sample_graph(vec![node]);
    let proposals = agent.propose(&graph, &mut ids);

    assert_eq!(proposals.len(), 1);
    assert_eq!(proposals[0].agent_id.as_str(), "action-proposal-agent");
    assert_eq!(proposals[0].requested_action.safety_level, ActionSafetyLevel::MediumRisk);
    let confidence = f32::from_bits(proposals[0].confidence.0);
    assert!(
        (confidence - 0.9).abs() < f32::EPSILON,
        "expected confidence 0.9, got {}",
        confidence
    );
}

#[test]
fn propose_multiple_actions() {
    let mut ids = IdSource::new();
    let agent = ActionProposalAgent::new(AgentId::from_string("agent"));
    let node1 = sample_node(&mut ids, 1, ActionKind::LaunchApplication { application: "firefox".into() });
    let node2 = sample_node(&mut ids, 2, ActionKind::OpenUrl { url: "https://example.com".into() });
    let graph = sample_graph(vec![node1, node2]);
    let proposals = agent.propose(&graph, &mut ids);

    assert_eq!(proposals.len(), 2);
    assert_eq!(proposals[0].requested_action.safety_level, ActionSafetyLevel::MediumRisk);
    assert_eq!(proposals[1].requested_action.safety_level, ActionSafetyLevel::LowRisk);
}

#[test]
fn propose_creates_proposals_with_unique_ids() {
    let mut ids = IdSource::new();
    let agent = ActionProposalAgent::new(AgentId::from_string("agent"));
    let node1 = sample_node(&mut ids, 1, ActionKind::LaunchApplication { application: "code".into() });
    let node2 = sample_node(&mut ids, 2, ActionKind::CreateDirectory { path: "/tmp/test".into() });
    let graph = sample_graph(vec![node1, node2]);
    let proposals = agent.propose(&graph, &mut ids);

    assert_ne!(proposals[0].id, proposals[1].id);
    assert!(proposals[0].rationale.contains("step 1"));
    assert!(proposals[1].rationale.contains("step 2"));
}

#[test]
fn safety_level_mapping() {
    assert_eq!(
        safety_level_for_kind(&ActionKind::LaunchApplication { application: "x".into() }),
        ActionSafetyLevel::MediumRisk
    );
    assert_eq!(
        safety_level_for_kind(&ActionKind::OpenUrl { url: "x".into() }),
        ActionSafetyLevel::LowRisk
    );
    assert_eq!(
        safety_level_for_kind(&ActionKind::RunCommand { command: "x".into(), args: "".into() }),
        ActionSafetyLevel::HighRisk
    );
    assert_eq!(
        safety_level_for_kind(&ActionKind::CreateDirectory { path: "x".into() }),
        ActionSafetyLevel::MediumRisk
    );
    assert_eq!(
        safety_level_for_kind(&ActionKind::OpenFile { path: "x".into() }),
        ActionSafetyLevel::LowRisk
    );
    assert_eq!(
        safety_level_for_kind(&ActionKind::CloneRepository { url: "x".into(), directory: "".into() }),
        ActionSafetyLevel::MediumRisk
    );
    assert_eq!(
        safety_level_for_kind(&ActionKind::CreateProjectWorkspace {
            project_name: "x".into(),
            framework: "".into()
        }),
        ActionSafetyLevel::LowRisk
    );
}

#[test]
fn propose_nodes_subset_works() {
    let mut ids = IdSource::new();
    let agent = ActionProposalAgent::new(AgentId::from_string("agent"));
    let node1 = sample_node(&mut ids, 1, ActionKind::LaunchApplication { application: "firefox".into() });
    let _node2 = sample_node(&mut ids, 2, ActionKind::OpenUrl { url: "https://example.com".into() });
    let proposals = agent.propose_nodes(&[node1], &mut ids);

    assert_eq!(proposals.len(), 1);
}

#[test]
fn propose_empty_graph() {
    let mut ids = IdSource::new();
    let agent = ActionProposalAgent::new(AgentId::from_string("agent"));
    let graph = sample_graph(vec![]);
    let proposals = agent.propose(&graph, &mut ids);
    assert!(proposals.is_empty());
}

// ── Security agent ──────────────────────────────────────────────────

fn process_obs(ids: &mut IdSource, pid: u32, ppid: u32) -> Observation {
    Observation {
        id: ids.next_observation_id(),
        source: ObservationSource::Process,
        observed_at: "0.000000000Z".into(),
        collection_duration_ms: 5,
        payload: ObservationPayload::Process(ProcessObservation {
            pid,
            parent_pid: ppid,
            command: format!("proc-{pid}"),
            cpu_percent: Real64(0.0f64.to_bits()),
            memory_bytes: 0,
            state: "R".into(),
        }),
    }
}

fn cpu_obs(ids: &mut IdSource, pressure_some: f64) -> Observation {
    Observation {
        id: ids.next_observation_id(),
        source: ObservationSource::Cpu,
        observed_at: "0.000000000Z".into(),
        collection_duration_ms: 5,
        payload: ObservationPayload::Cpu(CpuObservation {
            pressure_some_avg10: Some(Real64(pressure_some.to_bits())),
            pressure_full_avg10: None,
            nr_running: Some(10),
        }),
    }
}

/// Renders a CPU pressure in percent with one decimal, as the daemon does.
fn percent_text(pressure: Real64) -> String {
    format!("{:.1}", f64::from_bits(pressure.0) * 100.0)
}

fn collect(agent: &mut SecurityAgent, obs: &[Observation], ids: &mut IdSource) -> Vec<Incident> {
    agent.collect_incidents(obs, percent_text, ids)
}

#[test]
fn fork_storm_detected() {
    let mut ids = IdSource::new();
    let mut agent = SecurityAgent::new(AgentId::from_string("security-agent"));
    let mut obs = Vec::new();
    for pid in 1..=7 {
        obs.push(process_obs(&mut ids, pid, 100));
    }

    let incidents = collect(&mut agent, &obs, &mut ids);
    let fork_incidents: Vec<_> = incidents
        .iter()
        .filter(|i| i.description.contains("ForkStormDetected"))
        .collect();

    assert_eq!(fork_incidents.len(), 1);
    assert_eq!(fork_incidents[0].category, IncidentCategory::Security);
    assert!(fork_incidents[0].description.contains("parent PID 100"));
}

#[test]
fn no_fork_storm_below_threshold() {
    let mut ids = IdSource::new();
    let mut agent = SecurityAgent::new(AgentId::from_string("security-agent"));
    let mut obs = Vec::new();
    for pid in 1..=3 {
        obs.push(process_obs(&mut ids, pid, 100));
    }

    let incidents = collect(&mut agent, &obs, &mut ids);
    let fork_incidents: Vec<_> = incidents
        .iter()
        .filter(|i| i.description.contains("ForkStormDetected"))
        .collect();

    assert!(fork_incidents.is_empty());
}

#[test]
fn excessive_process_creation() {
    let mut ids = IdSource::new();
    let mut agent = SecurityAgent::new(AgentId::from_string("security-agent"));
    let mut obs = Vec::new();
    for pid in 1..=55 {
        obs.push(process_obs(&mut ids, pid, 1));
    }

    let incidents = collect(&mut agent, &obs, &mut ids);
    let excess: Vec<_> = incidents
        .iter()
        .filter(|i| i.description.contains("ExcessiveProcessCreation"))
        .collect();

    assert_eq!(excess.len(), 1);
    assert!(excess[0].description.contains("55 active processes"));
}

#[test]
fn repeated_policy_denial_after_three_ticks() {
    let mut ids = IdSource::new();
    let mut agent = SecurityAgent::new(AgentId::from_string("security-agent"));
    let mut obs: Vec<Observation> = (1..=45).map(|pid| process_obs(&mut ids, pid, 1)).collect();
    obs.push(cpu_obs(&mut ids, 0.7));

    let incidents = collect(&mut agent, &obs, &mut ids);
    assert!(!incidents.iter().any(|i| i.description.contains("RepeatedPolicyDenial")));

    let incidents = collect(&mut agent, &obs, &mut ids);
    assert!(!incidents.iter().any(|i| i.description.contains("RepeatedPolicyDenial")));

    let incidents = collect(&mut agent, &obs, &mut ids);
    assert!(incidents.iter().any(|i| i.description.contains("RepeatedPolicyDenial")));
}

#[test]
fn agent_behavior_anomaly_detected() {
    let mut ids = IdSource::new();
    let mut agent = SecurityAgent::new(AgentId::from_string("security-agent"));
    let mut obs: Vec<Observation> = (1..=35).map(|pid| process_obs(&mut ids, pid, 1)).collect();
    obs.push(cpu_obs(&mut ids, 0.9));

    let incidents = collect(&mut agent, &obs, &mut ids);
    assert!(incidents.iter().any(|i| i.description.contains("AgentBehaviorAnomaly")));
}

#[test]
fn security_agent_produces_no_proposals() {
    let mut ids = IdSource::new();
    let agent = SecurityAgent::new(AgentId::from_string("security-agent"));
    let obs: Vec<Observation> = (1..=7).map(|pid| process_obs(&mut ids, pid, 100)).collect();

    let proposals = agent.propose(&obs);
    assert!(proposals.is_empty(), "Security Agent must never emit proposals");
}

#[test]
fn peak_pressure_ignores_nan_and_negative_readings() {
    let mut ids = IdSource::new();
    let obs = vec![
        cpu_obs(&mut ids, f64::NAN),
        cpu_obs(&mut ids, 0.3),
        cpu_obs(&mut ids, -5.0),
        cpu_obs(&mut ids, 0.7),
        cpu_obs(&mut ids, 0.2),
        process_obs(&mut ids, 1, 1),
    ];
    assert_eq!(f64::from_bits(max_cpu_pressure(&obs).0), 0.7);
    assert_eq!(max_cpu_pressure(&[]).0, 0.0f64.to_bits());
    let only_negative = vec![cpu_obs(&mut ids, -1.0)];
    assert_eq!(max_cpu_pressure(&only_negative).0, 0.0f64.to_bits());
    let infinite = vec![cpu_obs(&mut ids, f64::INFINITY), cpu_obs(&mut ids, 0.9)];
    assert_eq!(max_cpu_pressure(&infinite).0, f64::INFINITY.to_bits());
}

#[test]
fn pressure_bands_at_their_thresholds() {
    let band = |x: f64| pressure_band(Real64(x.to_bits()));
    assert_eq!(band(0.0), PressureBand::Calm);
    assert_eq!(band(0.6), PressureBand::Calm);
    assert_eq!(band(0.61), PressureBand::Elevated);
    assert_eq!(band(0.8), PressureBand::Elevated);
    assert_eq!(band(0.800001), PressureBand::High);
    assert_eq!(band(f64::INFINITY), PressureBand::High);
    assert_eq!(band(f64::NAN), PressureBand::Calm);
    assert_eq!(band(-0.9), PressureBand::Calm);
}

#[test]
fn anomaly_description_shows_peak_pressure_and_tick() {
    let mut ids = IdSource::new();
    let mut agent = SecurityAgent::new(AgentId::from_string("security-agent"));
    let mut obs: Vec<Observation> = (1..=35).map(|pid| process_obs(&mut ids, pid, 1)).collect();
    obs.push(cpu_obs(&mut ids, 0.5));
    obs.push(cpu_obs(&mut ids, 0.9));

    let incidents = collect(&mut agent, &obs, &mut ids);
    let anomaly: Vec<_> = incidents
        .iter()
        .filter(|i| i.description.contains("AgentBehaviorAnomaly"))
        .collect();
    assert_eq!(anomaly.len(), 1);
    assert_eq!(
        anomaly[0].description,
        "AgentBehaviorAnomaly: CPU pressure 90.0% with 35 processes at tick 1 \
         — workload behaviour deviating from baseline"
    );
    assert_eq!(anomaly[0].category, IncidentCategory::GovernanceViolation);
}

// ── Recommendation consumer ─────────────────────────────────────────

fn make_rec(ids: &mut IdSource, summary: &str, confidence: f64) -> Recommendation {
    Recommendation::new(
        AgentId::from_string("classifier"),
        Real64(confidence.to_bits()),
        summary.into(),
        "test reasoning".into(),
        ids,
    )
}

/// The `f64` to `f32` narrowing of a confidence score.
fn narrow(x: Real64) -> Confidence {
    Confidence((f64::from_bits(x.0) as f32).to_bits())
}

fn weight_of(kind: &ActionKind) -> u64 {
    match kind {
        ActionKind::CgroupSetCpuWeight { weight, .. } => *weight,
        _ => panic!("expected CgroupSetCpuWeight"),
    }
}

#[test]
fn database_generates_proposal() {
    let mut ids = IdSource::new();
    let rec = make_rec(&mut ids, "Workload classified as Database", 0.92);
    let proposals = recommendation_to_proposals(&rec, narrow(rec.confidence), &mut ids);
    assert_eq!(proposals.len(), 1);
    let p = &proposals[0];
    assert!(p.rationale.contains("Database"));
    assert!(p.rationale.contains(rec.id.as_str()));
    assert_eq!(weight_of(&p.requested_action.kind), 200);
    assert_eq!(p.requested_action.safety_level, ActionSafetyLevel::LowRisk);
}

#[test]
fn interactive_generates_proposal() {
    let mut ids = IdSource::new();
    let rec = make_rec(&mut ids, "Workload classified as Interactive", 0.85);
    let proposals = recommendation_to_proposals(&rec, narrow(rec.confidence), &mut ids);
    assert_eq!(proposals.len(), 1);
    assert_eq!(weight_of(&proposals[0].requested_action.kind), 150);
}

#[test]
fn batch_generates_proposal() {
    let mut ids = IdSource::new();
    let rec = make_rec(&mut ids, "Workload classified as Batch", 0.75);
    let proposals = recommendation_to_proposals(&rec, narrow(rec.confidence), &mut ids);
    assert_eq!(proposals.len(), 1);
    assert_eq!(weight_of(&proposals[0].requested_action.kind), 50);
}

#[test]
fn build_generates_proposal() {
    let mut ids = IdSource::new();
    let rec = make_rec(&mut ids, "Workload classified as Build", 0.88);
    let proposals = recommendation_to_proposals(&rec, narrow(rec.confidence), &mut ids);
    assert_eq!(proposals.len(), 1);
    assert_eq!(weight_of(&proposals[0].requested_action.kind), 300);
}

#[test]
fn system_service_generates_proposal() {
    let mut ids = IdSource::new();
    let rec = make_rec(&mut ids, "Workload classified as SystemService", 0.80);
    let proposals = recommendation_to_proposals(&rec, narrow(rec.confidence), &mut ids);
    assert_eq!(proposals.len(), 1);
    assert_eq!(weight_of(&proposals[0].requested_action.kind), 100);
}

#[test]
fn unknown_generates_no_proposal() {
    let mut ids = IdSource::new();
    let rec = make_rec(&mut ids, "Workload classified as Unknown", 0.50);
    let proposals = recommendation_to_proposals(&rec, narrow(rec.confidence), &mut ids);
    assert!(proposals.is_empty());
}

#[test]
fn proposal_confidence_matches_recommendation() {
    let mut ids = IdSource::new();
    let rec = make_rec(&mut ids, "Workload classified as Database", 0.92);
    let proposals = recommendation_to_proposals(&rec, narrow(rec.confidence), &mut ids);
    assert!((f32::from_bits(proposals[0].confidence.0) - 0.92).abs() < 0.001);
}

#[test]
fn consume_and_propose_round_trip() {
    let mut ids = IdSource::new();
    let mut agent = RecommendationConsumerAgent::new(AgentId::from_string("bridge"));

    let rec = make_rec(&mut ids, "Workload classified as Database", 0.92);
    agent.consume_recommendation(rec);

    assert_eq!(agent.recommendations_consumed(), 0);
    assert_eq!(agent.recommendations_converted(), 0);

    let proposals = agent.propose(narrow, &mut ids);

    assert_eq!(proposals.len(), 1);
    assert_eq!(agent.recommendations_consumed(), 1);
    assert_eq!(agent.recommendations_converted(), 1);
    assert_eq!(agent.recommendations_ignored(), 0);
}

#[test]
fn unknown_recommendation_ignored() {
    let mut ids = IdSource::new();
    let mut agent = RecommendationConsumerAgent::new(AgentId::from_string("bridge"));

    let rec = make_rec(&mut ids, "Workload classified as Unknown", 0.50);
    agent.consume_recommendation(rec);

    let proposals = agent.propose(narrow, &mut ids);
    assert!(proposals.is_empty());
    assert_eq!(agent.recommendations_consumed(), 1);
    assert_eq!(agent.recommendations_converted(), 0);
    assert_eq!(agent.recommendations_ignored(), 1);
}

#[test]
fn multiple_recommendations_batched() {
    let mut ids = IdSource::new();
    let mut agent = RecommendationConsumerAgent::new(AgentId::from_string("bridge"));

    agent.consume_recommendation(make_rec(&mut ids, "Workload classified as Database", 0.92));
    agent.consume_recommendation(make_rec(&mut ids, "Workload classified as Build", 0.88));
    agent.consume_recommendation(make_rec(&mut ids, "Workload classified as Unknown", 0.50));
    agent.consume_recommendation(make_rec(&mut ids, "Workload classified as Interactive", 0.85));

    let proposals = agent.propose(narrow, &mut ids);
    assert_eq!(proposals.len(), 3);
    assert_eq!(agent.recommendations_consumed(), 4);
    assert_eq!(agent.recommendations_converted(), 3);
    assert_eq!(agent.recommendations_ignored(), 1);

    assert_eq!(weight_of(&proposals[0].requested_action.kind), 200);
    assert_eq!(weight_of(&proposals[1].requested_action.kind), 300);
    assert_eq!(weight_of(&proposals[2].requested_action.kind), 150);
}

#[test]
fn propose_drains_pending() {
    let mut ids = IdSource::new();
    let mut agent = RecommendationConsumerAgent::new(AgentId::from_string("bridge"));

    agent.consume_recommendation(make_rec(&mut ids, "Workload classified as Database", 0.92));
    let first = agent.propose(narrow, &mut ids);
    assert_eq!(first.len(), 1);

    let second = agent.propose(narrow, &mut ids);
    assert!(second.is_empty());
    assert_eq!(agent.recommendations_consumed(), 1);
}

#[test]
fn agent_trait_id_and_kind() {
    let agent = RecommendationConsumerAgent::new(AgentId::from_string("bridge-1"));
    assert_eq!(agent.id().as_str(), "bridge-1");
    assert_eq!(agent.kind(), AgentKind::Custom("RecommendationConsumer".to_string()));
    assert!(!agent.capabilities().capabilities.is_empty());
}

#[test]
fn observation_ids_come_from_the_observation_sequence() {
    let mut ids = IdSource::new();
    let o = process_obs(&mut ids, 1, 1);
    assert_eq!(o.id, ObservationId::from_string("ObservationId-1"));
}

#[test]
fn recommendation_and_proposal_in_trace_store() {
    let mut ids = IdSource::new();
    let mut store = InMemoryTraceStore::new();
    let trace_id = ids.next_trace_id();

    let rec = make_rec(&mut ids, "Workload classified as Database", 0.92);
    let rec_env = EventEnvelope {
        id: ids.next_message_id(),
        trace_id: trace_id.clone(),
        causation_id: None,
        topic: Topic::new("recommendations.classifier".into()),
        timestamp: "2026-06-03T00:00:00Z".into(),
        payload: EventPayload::Recommendation(rec.clone()),
    };
    store.append(rec_env).unwrap();

    let proposals = recommendation_to_proposals(&rec, narrow(rec.confidence), &mut ids);
    assert_eq!(proposals.len(), 1);
    let prop_env = EventEnvelope {
        id: ids.next_message_id(),
        trace_id: trace_id.clone(),
        causation_id: None,
        topic: Topic::new("proposals.bridge".into()),
        timestamp: "2026-06-03T00:00:01Z".into(),
        payload: EventPayload::Proposal(proposals[0].clone()),
    };
    store.append(prop_env).unwrap();

    let events = store.replay(trace_id).unwrap();
    assert_eq!(events.len(), 2);
    match &events[0].payload {
        EventPayload::Recommendation(r) => assert_eq!(r.summary, "Workload classified as Database"),
        _ => panic!("expected Recommendation"),
    }
    match &events[1].payload {
        EventPayload::Proposal(p) => {
            assert!(p.rationale.contains(rec.id.as_str()));
            assert!(p.rationale.contains("Database"));
            match &p.requested_action.kind {
                ActionKind::CgroupSetCpuWeight { weight, .. } => assert_eq!(*weight, 200),
                _ => panic!("expected CgroupSetCpuWeight"),
            }
        }
        _ => panic!("expected Proposal"),
    }
}
