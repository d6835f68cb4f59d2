use agenticos::agents::process::{cgroup_group, ProcessAgent};
use agenticos::domain::action::{ActionKind, ActionSafetyLevel};
use agenticos::domain::agent::AgentKind;
use agenticos::domain::number::Real64;
use agenticos::domain::observation::{
    CgroupObservation, CpuObservation, Observation, ObservationPayload, ObservationSource,
};
use agenticos::domain::proposal::Confidence;
use agenticos::ids::{AgentId, IdSource};

/// A pressure reading with one decimal, as the daemon renders it.
fn value_text(x: Real64) -> String {
    format!("{:.1}", f64::from_bits(x.0))
}

/// A pressure reading in percent with one decimal, as the daemon renders it.
fn percent_text(x: Real64) -> String {
    format!("{:.1}", f64::from_bits(x.0) * 100.0)
}

/// An agent whose limits are those of the CPU-fraction threshold `cpu_threshold`.
fn agent_with(id: &str, cpu_threshold: f64, throttling_threshold: u64) -> ProcessAgent {
    ProcessAgent::with_thresholds(
        AgentId::from_string(id),
        (cpu_threshold * 1_000_000.0) as u64,
        (cpu_threshold * 100_000.0) as u64,
        throttling_threshold,
    )
}

fn cgroup_obs(
    ids: &mut IdSource,
    path: &str,
    usage_usec: u64,
    nr_throttled: u64,
    throttled_usec: u64,
) -> Observation {
    Observation {
        id: ids.next_observation_id(),
        source: ObservationSource::Cgroup,
        observed_at: "0.000000000Z".into(),
        collection_duration_ms: 5,
        payload: ObservationPayload::Cgroup(CgroupObservation {
            cgroup_path: path.to_owned(),
            memory_current_bytes: 0,
            memory_swap_current_bytes: 0,
            cpu_usage_usec: usage_usec,
            cpu_user_usec: usage_usec / 2,
            cpu_system_usec: usage_usec / 4,
            cpu_nr_throttled: nr_throttled,
            cpu_throttled_usec: throttled_usec,
            processes: 2,
        }),
    }
}

fn cpu_pressure_obs(ids: &mut IdSource, pressure_some: f64, nr_running: u64) -> Observation {
    Observation {
        id: ids.next_observation_id(),
        source: ObservationSource::Cpu,
        observed_at: "0.000000000Z".into(),
        collection_duration_ms: 5,
        payload: ObservationPayload::Cpu(CpuObservation {
            pressure_some_avg10: Some(Real64(pressure_some.to_bits())),
            pressure_full_avg10: None,
            nr_running: Some(nr_running),
        }),
    }
}

#[test]
fn low_cpu_usage_yields_no_proposals() {
    let mut ids = IdSource::new();
    let agent = ProcessAgent::new(AgentId::from_string("proc-agent"));
    let obs = cgroup_obs(&mut ids, "/sys/fs/cgroup/agenticos/test", 100_000, 0, 0);
    let proposals = agent.propose(&[obs], value_text, percent_text, &mut ids);
    assert!(proposals.is_empty());
}

#[test]
fn high_cpu_usage_proposes_cpu_max() {
    let mut ids = IdSource::new();
    let agent = ProcessAgent::new(AgentId::from_string("proc-agent"));
    let obs = cgroup_obs(&mut ids, "/sys/fs/cgroup/agenticos/test", 900_000, 0, 0);
    let proposals = agent.propose(&[obs], value_text, percent_text, &mut ids);
    assert_eq!(proposals.len(), 1);

    let prop = &proposals[0];
    assert_eq!(prop.agent_id, AgentId::from_string("proc-agent"));
    match &prop.requested_action.kind {
        ActionKind::CgroupSetCpuMax { group, quota } => {
            assert_eq!(group, "agenticos/test");
            assert_eq!(quota, "80000 100000");
        }
        other => panic!("expected CgroupSetCpuMax, got {other:?}"),
    }
}

#[test]
fn throttling_detected_proposes_cpu_weight() {
    let mut ids = IdSource::new();
    let agent = ProcessAgent::new(AgentId::from_string("proc-agent"));
    let obs = cgroup_obs(&mut ids, "/sys/fs/cgroup/agenticos/test", 100_000, 10, 50_000);
    let proposals = agent.propose(&[obs], value_text, percent_text, &mut ids);
    assert_eq!(proposals.len(), 1);

    let prop = &proposals[0];
    match &prop.requested_action.kind {
        ActionKind::CgroupSetCpuWeight { group, weight } => {
            assert_eq!(group, "agenticos/test");
            assert_eq!(*weight, 100);
        }
        other => panic!("expected CgroupSetCpuWeight, got {other:?}"),
    }
}

#[test]
fn high_cpu_pressure_proposes_workload_classification() {
    let mut ids = IdSource::new();
    let agent = ProcessAgent::new(AgentId::from_string("proc-agent"));
    let obs = cpu_pressure_obs(&mut ids, 0.85, 8);
    let proposals = agent.propose(&[obs], value_text, percent_text, &mut ids);
    assert_eq!(proposals.len(), 1);

    let prop = &proposals[0];
    assert_eq!(prop.requested_action.safety_level, ActionSafetyLevel::LowRisk);
    match &prop.requested_action.kind {
        ActionKind::WorkloadClassifyRecommend { group, classification } => {
            assert_eq!(group, "system");
            assert!(classification.contains("cpu_pressure_some="));
            assert!(classification.contains("consider isolating workload"));
        }
        other => panic!("expected WorkloadClassifyRecommend, got {other:?}"),
    }
}

#[test]
fn cpu_usage_below_threshold_no_proposal() {
    let mut ids = IdSource::new();
    let agent = agent_with("proc-agent", 0.90, 5);
    let obs = cgroup_obs(&mut ids, "/sys/fs/cgroup/test", 500_000, 0, 0);
    let proposals = agent.propose(&[obs], value_text, percent_text, &mut ids);
    assert!(proposals.is_empty());
}

#[test]
fn no_cgroup_observations_returns_empty() {
    let mut ids = IdSource::new();
    let agent = ProcessAgent::new(AgentId::from_string("proc-agent"));
    let obs = Observation {
        id: ids.next_observation_id(),
        source: ObservationSource::Memory,
        observed_at: "0.000000000Z".into(),
        collection_duration_ms: 0,
        payload: ObservationPayload::Empty,
    };
    let proposals = agent.propose(&[obs], value_text, percent_text, &mut ids);
    assert!(proposals.is_empty());
}

#[test]
fn cgroup_rules_then_pressure_rule_in_order() {
    let mut ids = IdSource::new();
    let agent = ProcessAgent::new(AgentId::from_string("proc-agent"));
    let obs = vec![
        cpu_pressure_obs(&mut ids, 0.55, 3),
        cgroup_obs(&mut ids, "/sys/fs/cgroup/a", 900_000, 7, 1_234),
        cgroup_obs(&mut ids, "/sys/fs/cgroup/b", 800_000, 5, 0),
        cpu_pressure_obs(&mut ids, 0.5, 3),
    ];
    let mut ids = IdSource::new();
    let proposals = agent.propose(&obs, value_text, percent_text, &mut ids);
    assert_eq!(proposals.len(), 3);

    assert_eq!(proposals[0].id.as_str(), "ProposalId-1");
    assert_eq!(proposals[0].requested_action.id.as_str(), "ActionId-1");
    assert_eq!(proposals[0].rationale, "high CPU usage in 'a': 900000 usec, capping at 80000 100000");
    assert_eq!(proposals[0].confidence, Confidence(0.85f32.to_bits()));
    assert_eq!(proposals[0].requested_action.safety_level, ActionSafetyLevel::MediumRisk);
    assert!(proposals[0].based_on.is_empty());

    assert_eq!(proposals[1].id.as_str(), "ProposalId-2");
    assert_eq!(proposals[1].requested_action.id.as_str(), "ActionId-2");
    match &proposals[1].requested_action.kind {
        ActionKind::CgroupSetCpuWeight { group, weight } => {
            assert_eq!(group, "a");
            assert_eq!(*weight, 70);
        }
        other => panic!("expected CgroupSetCpuWeight, got {other:?}"),
    }
    assert_eq!(
        proposals[1].rationale,
        "throttling in 'a': 7 events (1234 usec), boosting cpu.weight to 70"
    );
    assert_eq!(proposals[1].confidence, Confidence(0.8f32.to_bits()));

    match &proposals[2].requested_action.kind {
        ActionKind::WorkloadClassifyRecommend { group, classification } => {
            assert_eq!(group, "system");
            assert_eq!(classification, "cpu_pressure_some=0.6 — consider isolating workload");
        }
        other => panic!("expected WorkloadClassifyRecommend, got {other:?}"),
    }
    assert_eq!(
        proposals[2].rationale,
        "system-wide CPU pressure some avg10 = 55.0%, above 50% threshold"
    );
    assert_eq!(proposals[2].confidence, Confidence(0.75f32.to_bits()));
    assert_eq!(proposals[0].created_at, proposals[2].created_at);
}

#[test]
fn weight_saturates_at_one_hundred() {
    let mut ids = IdSource::new();
    let agent = ProcessAgent::new(AgentId::from_string("proc-agent"));
    let obs = cgroup_obs(&mut ids, "/sys/fs/cgroup/x", 0, u64::MAX, 0);
    let proposals = agent.propose(&[obs], value_text, percent_text, &mut ids);
    match &proposals[0].requested_action.kind {
        ActionKind::CgroupSetCpuWeight { weight, .. } => assert_eq!(*weight, 100),
        other => panic!("expected CgroupSetCpuWeight, got {other:?}"),
    }
}

#[test]
fn group_strips_every_leading_mount_point() {
    assert_eq!(cgroup_group("/sys/fs/cgroup/agenticos/test"), "agenticos/test");
    assert_eq!(cgroup_group("/sys/fs/cgroup//sys/fs/cgroup/x"), "x");
    assert_eq!(cgroup_group("/other/sys/fs/cgroup/x"), "/other/sys/fs/cgroup/x");
    assert_eq!(cgroup_group("/sys/fs/cgroup/"), "");
}

#[test]
fn process_agent_identity() {
    let agent = ProcessAgent::new(AgentId::from_string("proc-agent"));
    assert_eq!(agent.id().as_str(), "proc-agent");
    assert_eq!(agent.kind(), AgentKind::Process);
    assert!(agent.capabilities().capabilities.is_empty());
}
