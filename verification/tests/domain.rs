use std::collections::HashMap;

use agenticos::domain::action::{ActionKind, ActionStatus};
use agenticos::domain::action_graph::{
    ActionEdge, ActionGraph, ActionMetadata, ActionNode, CapabilityDescriptor, ToolMetadata,
};
use agenticos::domain::intent::Intent;
use agenticos::domain::number::Real64;
use agenticos::domain::plan::{PlanStep, TaskPlan};
use agenticos::domain::recommendation::{ProviderMetadata, Recommendation};
use agenticos::domain::workload::{WorkloadClass, WorkloadObservationSummary};
use agenticos::ids::{ActionId, AgentId, IdSource, IntentId, PlanId};

fn r64(x: f64) -> Real64 {
    Real64(x.to_bits())
}

fn f64_of(x: Real64) -> f64 {
    f64::from_bits(x.0)
}

fn sample_graph() -> ActionGraph {
    let plan_id = PlanId::from_string("PlanId-1");
    let intent_id = IntentId::from_string("IntentId-1");

    let node1 = ActionNode::new(
        ActionId::from_string("ActionId-1"),
        ActionKind::LaunchApplication { application: "firefox".into() },
        {
            let mut p = HashMap::new();
            p.insert("application".into(), "firefox".into());
            p
        },
        ActionMetadata {
            source_step: 1,
            source_plan_id: plan_id.clone(),
            source_intent_id: intent_id.clone(),
            tool: Some("firefox".into()),
            capability: Some("launch_application".into()),
        },
    );

    let node2 = ActionNode::new(
        ActionId::from_string("ActionId-2"),
        ActionKind::OpenUrl { url: "https://github.com".into() },
        {
            let mut p = HashMap::new();
            p.insert("url".into(), "https://github.com".into());
            p
        },
        ActionMetadata {
            source_step: 2,
            source_plan_id: plan_id.clone(),
            source_intent_id: intent_id.clone(),
            tool: Some("browser".into()),
            capability: Some("open_url".into()),
        },
    );

    let edge = ActionEdge {
        prerequisite_id: ActionId::from_string("ActionId-1"),
        dependent_id: ActionId::from_string("ActionId-2"),
        reason: "launch browser before opening URL".into(),
    };

    ActionGraph::new(vec![node1, node2], vec![edge], plan_id, intent_id)
}

#[test]
fn action_graph_constructs() {
    let graph = sample_graph();
    assert_eq!(graph.node_count(), 2);
    assert_eq!(graph.edge_count(), 1);
}

#[test]
fn action_node_has_pending_status() {
    let graph = sample_graph();
    assert_eq!(graph.nodes[0].status, ActionStatus::Pending);
}

#[test]
fn prerequisites_of_returns_correct_nodes() {
    let graph = sample_graph();
    let deps = graph.prerequisites_of(&ActionId::from_string("ActionId-2"));
    assert_eq!(deps.len(), 1);
    assert_eq!(deps[0].id.as_str(), "ActionId-1");
}

#[test]
fn dependents_of_returns_correct_nodes() {
    let graph = sample_graph();
    let deps = graph.dependents_of(&ActionId::from_string("ActionId-1"));
    assert_eq!(deps.len(), 1);
    assert_eq!(deps[0].id.as_str(), "ActionId-2");
}

#[test]
fn action_edge_constructs() {
    let edge = ActionEdge {
        prerequisite_id: ActionId::from_string("ActionId-1"),
        dependent_id: ActionId::from_string("ActionId-2"),
        reason: "depends".into(),
    };
    assert_eq!(edge.prerequisite_id.as_str(), "ActionId-1");
    assert_eq!(edge.dependent_id.as_str(), "ActionId-2");
}

#[test]
fn action_graph_is_empty() {
    let graph = ActionGraph::new(
        vec![],
        vec![],
        PlanId::from_string("P-1"),
        IntentId::from_string("I-1"),
    );
    assert!(graph.is_empty());
}

#[test]
fn capability_descriptor_constructs() {
    let cap = CapabilityDescriptor {
        tool: "git".into(),
        action_kind: ActionKind::CloneRepository {
            url: "example.com/repo".into(),
            directory: "/tmp/repo".into(),
        },
        description: "Clone a git repository".into(),
    };
    assert_eq!(cap.tool, "git");
}

#[test]
fn tool_metadata_constructs() {
    let cap = CapabilityDescriptor {
        tool: "vscode".into(),
        action_kind: ActionKind::LaunchApplication { application: "vscode".into() },
        description: "Launch VS Code".into(),
    };
    let meta = ToolMetadata {
        name: "vscode".into(),
        version: Some("1.85".into()),
        description: "VS Code editor".into(),
        capabilities: vec![cap],
    };
    assert_eq!(meta.name, "vscode");
    assert_eq!(meta.capabilities.len(), 1);
}

#[test]
fn intent_constructs() {
    let mut ids = IdSource::new();
    let mut params = HashMap::new();
    params.insert("application".to_string(), "vscode".to_string());
    let intent = Intent::new(
        "Open VS Code".into(),
        "launch_application".into(),
        params,
        r64(0.9),
        &mut ids,
    );
    assert_eq!(intent.intent_type, "launch_application");
    assert_eq!(intent.parameters.get("application").unwrap(), "vscode");
    assert!((f64_of(intent.confidence) - 0.9).abs() < 0.01);
    assert!(!intent.timestamp.is_empty());
}

#[test]
fn intent_id_is_deterministic_format() {
    let mut ids = IdSource::new();
    let id = ids.next_intent_id();
    assert!(id.as_str().starts_with("IntentId-"));
}

#[test]
fn plan_step_constructs() {
    let mut params = HashMap::new();
    params.insert("application".to_string(), "vscode".to_string());
    let step = PlanStep::new(1, "launch_application".into(), params);
    assert_eq!(step.order, 1);
    assert_eq!(step.action, "launch_application");
    assert_eq!(step.parameters.get("application").unwrap(), "vscode");
}

#[test]
fn plan_constructs() {
    let mut ids = IdSource::new();
    let intent_id = ids.next_intent_id();
    let step = PlanStep::new(1, "launch_application".into(), HashMap::new());
    let plan = TaskPlan::new(intent_id.clone(), vec![step], "pending".into(), &mut ids);
    assert_eq!(plan.source_intent_id, intent_id);
    assert_eq!(plan.steps.len(), 1);
    assert_eq!(plan.status, "pending");
    assert!(!plan.timestamp.is_empty());
}

#[test]
fn plan_id_is_deterministic_format() {
    let mut ids = IdSource::new();
    let id = ids.next_plan_id();
    assert!(id.as_str().starts_with("PlanId-"));
}

#[test]
fn recommendation_new_validates_confidence() {
    let mut ids = IdSource::new();
    let r = Recommendation::new(
        AgentId::from_string("test-agent"),
        r64(0.85),
        "Workload classified as batch".into(),
        "High CPU with low memory pressure".into(),
        &mut ids,
    );
    assert_eq!(f64_of(r.confidence), 0.85);
    assert_eq!(r.source_agent.as_str(), "test-agent");
    assert_eq!(r.summary, "Workload classified as batch");
    assert!(!r.timestamp.is_empty());
}

#[test]
fn workload_class_label_database() {
    assert_eq!(WorkloadClass::Database.label(), "Database");
}

#[test]
fn workload_class_label_interactive() {
    assert_eq!(WorkloadClass::Interactive.label(), "Interactive");
}

#[test]
fn workload_class_label_build() {
    assert_eq!(WorkloadClass::Build.label(), "Build");
}

#[test]
fn workload_class_label_batch() {
    assert_eq!(WorkloadClass::Batch.label(), "Batch");
}

#[test]
fn workload_class_label_system_service() {
    assert_eq!(WorkloadClass::SystemService.label(), "SystemService");
}

#[test]
fn workload_class_label_unknown() {
    assert_eq!(WorkloadClass::Unknown.label(), "Unknown");
}

#[test]
fn workload_observation_summary_constructs() {
    let s = WorkloadObservationSummary::new(
        r64(85.0),
        r64(60.0),
        42,
        vec!["postgres".into(), "python".into()],
        Some(r64(0.3)),
    );
    assert!((f64_of(s.cpu_utilization) - 85.0).abs() < 0.001);
    assert!((f64_of(s.memory_utilization) - 60.0).abs() < 0.001);
    assert_eq!(s.process_count, 42);
    assert_eq!(s.process_names.len(), 2);
    assert!((f64_of(s.cpu_pressure.unwrap()) - 0.3).abs() < 0.001);
}

#[test]
fn workload_observation_summary_empty_process_names() {
    let s = WorkloadObservationSummary::new(r64(10.0), r64(30.0), 0, vec![], None);
    assert!(s.process_names.is_empty());
    assert!(s.cpu_pressure.is_none());
}

#[test]
fn provider_extra_entries_are_set_and_replaced() {
    let m = ProviderMetadata::new("rules".to_string(), "none".to_string(), false, 3)
        .with_extra("prompt".to_string(), "classify".to_string())
        .with_extra("raw_response".to_string(), "{}".to_string())
        .with_extra("prompt".to_string(), "again".to_string());
    assert_eq!(
        m.extra.entries().clone(),
        vec![
            ("prompt".to_string(), "again".to_string()),
            ("raw_response".to_string(), "{}".to_string()),
        ]
    );
    assert_eq!(m.generation_latency_ms, 3);
    assert_eq!(m.provider_name, "rules");
}
