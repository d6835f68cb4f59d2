use agenticos::agents::security::SecurityAgent;
use agenticos::bench::{
    action_kind_file, action_kind_name, aggregate_counts, process_explosion, run_comparative,
    tick_timestamp, verify_deterministic_replay, ComparativeTickResult, CountTotals, PipelineMode,
    TickCounts, WorkloadKind,
};
use agenticos::domain::number::Real64;
use agenticos::ids::AgentId;
use agenticos::domain::action::ActionKind;
use agenticos::domain::observation::{Observation, ObservationPayload, ObservationSource};
use agenticos::ids::IdSource;

fn counts(tick: u64, obs: u64, proposals: u64, incidents: u64, approved: u64, denied: u64, vetoes: u64) -> TickCounts {
    TickCounts {
        tick,
        obs_count: obs,
        proposal_count: proposals,
        incident_count: incidents,
        approved_count: approved,
        denied_count: denied,
        veto_count: vetoes,
        executor_count: approved,
    }
}

fn baseline() -> Vec<TickCounts> {
    vec![counts(1, 6, 2, 0, 2, 0, 0), counts(2, 6, 3, 1, 2, 1, 0), counts(3, 6, 1, 0, 1, 0, 0)]
}

#[test]
fn identical_replays_pass() {
    let base = baseline();
    let outcome = verify_deterministic_replay(WorkloadKind::CpuContention, 42, 3, 3, &base, &[base.clone(), base.clone()]);
    assert_eq!(outcome.passes, 2);
    assert!(outcome.passed);
    assert!(outcome.mismatches.is_empty());
}

#[test]
fn replay_with_no_reruns_passes() {
    let outcome = verify_deterministic_replay(WorkloadKind::Mixed, 7, 3, 1, &baseline(), &[]);
    assert_eq!(outcome.passes, 0);
    assert_eq!(outcome.iterations, 1);
    assert!(outcome.passed);
}

#[test]
fn timings_and_tick_numbers_are_not_compared() {
    let base = baseline();
    let mut run = base.clone();
    run[0].tick = 99;
    let outcome = verify_deterministic_replay(WorkloadKind::Mixed, 7, 3, 2, &base, &[run]);
    assert_eq!(outcome.passes, 1);
    assert!(outcome.passed);
}

#[test]
fn replay_reports_each_differing_count_in_order() {
    let base = baseline();
    let mut run = base.clone();
    run[1] = counts(2, 6, 4, 1, 2, 2, 1);
    let outcome = verify_deterministic_replay(WorkloadKind::MemoryPressure, 42, 3, 3, &base, &[base.clone(), run]);
    assert_eq!(outcome.passes, 1);
    assert!(!outcome.passed);
    let details: Vec<(usize, u64, &str)> = outcome
        .mismatches
        .iter()
        .map(|m| (m.iteration, m.tick, m.detail.as_str()))
        .collect();
    assert_eq!(
        details,
        vec![
            (2, 2, "proposal_count mismatch: got 4 expected 3"),
            (2, 2, "denied_count mismatch: got 2 expected 1"),
            (2, 2, "veto_count mismatch: got 1 expected 0"),
        ]
    );
}

#[test]
fn replay_with_fewer_ticks_reports_sample_count() {
    let base = baseline();
    let short = base[..2].to_vec();
    let outcome = verify_deterministic_replay(WorkloadKind::ProcessExplosion, 42, 3, 2, &base, &[short]);
    assert_eq!(outcome.passes, 0);
    assert!(!outcome.passed);
    assert_eq!(outcome.mismatches.len(), 1);
    assert_eq!(outcome.mismatches[0].iteration, 1);
    assert_eq!(outcome.mismatches[0].tick, 0);
    assert_eq!(outcome.mismatches[0].detail, "sample count mismatch: got 2 expected 3");
}

#[test]
fn replay_reports_run_parameters_and_baseline_totals() {
    let base = baseline();
    let runs: Vec<Vec<TickCounts>> = (0..9).map(|_| base.clone()).collect();
    let outcome = verify_deterministic_replay(WorkloadKind::CpuContention, 42, 3, 10, &base, &runs);
    assert!(outcome.passed);
    assert!(outcome.mismatches.is_empty());
    assert_eq!(outcome.workload, "cpu-contention");
    assert_eq!(outcome.seed, 42);
    assert_eq!(outcome.ticks, 3);
    assert_eq!(outcome.iterations, 10);
    assert_eq!(outcome.passes, 9);
    assert_eq!(outcome.total_approved, 2 + 2 + 1);
    assert_eq!(outcome.total_denied, 0 + 1 + 0);
    assert_eq!(outcome.total_vetoes, 0);
    assert_eq!(outcome.total_incidents, 0 + 1 + 0);
}

fn tick_observations(ids: &mut IdSource, n: usize) -> Vec<Observation> {
    (0..n)
        .map(|_| Observation {
            id: ids.next_observation_id(),
            source: ObservationSource::Memory,
            observed_at: "0.000000000Z".into(),
            collection_duration_ms: 0,
            payload: ObservationPayload::Empty,
        })
        .collect()
}

#[test]
fn comparative_runs_every_mode_over_every_tick() {
    let mut ids = IdSource::new();
    let ticks = vec![tick_observations(&mut ids, 1), tick_observations(&mut ids, 2)];
    let results = run_comparative(&ticks, |mode: PipelineMode, obs: &Vec<Observation>, tick: u64| {
        ComparativeTickResult {
            mode: mode.label().into(),
            tick,
            proposal_count: obs.len() as u64,
            incident_count: 0,
            veto_count: 0,
            decision_count: 0,
            approved_count: 0,
            denied_count: 0,
            executor_count: 0,
        }
    });
    let seen: Vec<(String, u64, u64)> = results
        .iter()
        .map(|r| (r.mode.clone(), r.tick, r.proposal_count))
        .collect();
    assert_eq!(
        seen,
        vec![
            ("policy-only".to_string(), 1, 1),
            ("policy-only".to_string(), 2, 2),
            ("agents+policy".to_string(), 1, 1),
            ("agents+policy".to_string(), 2, 2),
            ("full".to_string(), 1, 1),
            ("full".to_string(), 2, 2),
        ]
    );
}

#[test]
fn workload_and_mode_names() {
    assert_eq!(WorkloadKind::CpuContention.name(), "cpu-contention");
    assert_eq!(WorkloadKind::MemoryPressure.name(), "memory-pressure");
    assert_eq!(WorkloadKind::Mixed.name(), "mixed");
    assert_eq!(WorkloadKind::ProcessExplosion.name(), "process-explosion");
    assert_eq!(WorkloadKind::IncidentStorm.name(), "incident-storm");
    assert_eq!(PipelineMode::PolicyOnly.label(), "policy-only");
    assert_eq!(PipelineMode::AgentsAndPolicy.label(), "agents+policy");
    assert_eq!(PipelineMode::Full.label(), "full");
}

#[test]
fn action_kind_names_and_files() {
    let cpu = ActionKind::CgroupSetCpuMax { group: "g".into(), quota: "max".into() };
    assert_eq!(action_kind_name(&cpu), "CgroupSetCpuMax");
    assert_eq!(action_kind_file(&cpu), "cpu.max");
    let thaw = ActionKind::ProcessThawGroup { group: "g".into() };
    assert_eq!(action_kind_name(&thaw), "ProcessThawGroup");
    assert_eq!(action_kind_file(&thaw), "cgroup.freeze");
    assert_eq!(action_kind_name(&ActionKind::ObserveOnly), "ObserveOnly");
    assert_eq!(action_kind_file(&ActionKind::ObserveOnly), "none");
}

#[test]
fn aggregate_counts_sums_every_count() {
    let totals = aggregate_counts(&baseline());
    assert_eq!(
        totals,
        CountTotals {
            ticks: 3,
            total_proposals: 6,
            total_incidents: 1,
            total_vetoes: 0,
            total_approved: 5,
            total_denied: 1,
            total_executions: 5,
        }
    );
    assert_eq!(aggregate_counts(&[]).ticks, 0);
}

#[test]
fn tick_timestamps_pad_to_nine_digits() {
    assert_eq!(tick_timestamp(3), "1728000000.000000003Z");
    assert_eq!(tick_timestamp(0), "1728000000.000000000Z");
    assert_eq!(tick_timestamp(1_234_567_890_123), "1728000000.1234567890123Z");
}

#[test]
fn process_explosion_spawns_under_two_parents() {
    let mut ids = IdSource::new();
    let obs = process_explosion(3, 6, &mut ids);
    assert_eq!(obs.len(), 6);
    let parents: Vec<u32> = obs
        .iter()
        .map(|o| match &o.payload {
            ObservationPayload::Process(p) => p.parent_pid,
            _ => panic!("expected a process"),
        })
        .collect();
    assert_eq!(parents, vec![100, 100, 200, 200, 200, 200]);
    match &obs[4].payload {
        ObservationPayload::Process(p) => {
            assert_eq!(p.pid, 3_000_004);
            assert_eq!(p.command, "fork-child-4");
            assert_eq!(p.memory_bytes, 1_000_000);
            assert_eq!(p.state, "R");
            assert_eq!(p.cpu_percent, Real64(0.0f64.to_bits()));
        }
        _ => panic!("expected a process"),
    }
    assert_eq!(obs[0].observed_at, "1728000000.000000003Z");
    assert_eq!(obs[0].id.as_str(), "ObservationId-1");
    assert_eq!(obs[5].id.as_str(), "ObservationId-6");
    // PIDs wrap to 32 bits as the generator's cast does.
    let big = process_explosion(5000, 1, &mut ids);
    match &big[0].payload {
        ObservationPayload::Process(p) => assert_eq!(p.pid, (5000u64 * 1_000_000) as u32),
        _ => panic!("expected a process"),
    }
}

#[test]
fn process_explosion_triggers_the_security_agent() {
    let mut ids = IdSource::new();
    let obs = process_explosion(1, 60, &mut ids);
    let mut agent = SecurityAgent::new(AgentId::from_string("security-agent"));
    let incidents = agent.collect_incidents(&obs, |p: Real64| format!("{:.1}", f64::from_bits(p.0) * 100.0), &mut ids);
    let descriptions: Vec<&str> = incidents.iter().map(|i| i.description.as_str()).collect();
    assert_eq!(descriptions[0], "ForkStormDetected: parent PID 100 spawned 20 processes (threshold: 5)");
    assert_eq!(descriptions[1], "ForkStormDetected: parent PID 200 spawned 40 processes (threshold: 5)");
    assert_eq!(descriptions[2], "ExcessiveProcessCreation: 60 active processes (threshold: 50)");
    assert!(descriptions[3].starts_with("HighProcessCount: 60 active processes"));
    assert_eq!(incidents.len(), 4);
}
