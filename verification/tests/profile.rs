use agenticos::config::{
    daemon_profile, default_agent_ids, AgenticosConfig, DaemonConfig, ExecutorChoice, PolicyProfile, SafetyConfig,
    TraceStoreChoice,
};

fn config(mode: &str, store: &str) -> DaemonConfig {
    DaemonConfig {
        agenticos: AgenticosConfig {
            mode: mode.into(),
            event_store: store.into(),
            db_path: "data/agenticos.db".into(),
            policy: "policies/default.toml".into(),
        },
        safety: SafetyConfig::default(),
    }
}

#[test]
fn daemon_components_follow_the_mode() {
    let p = daemon_profile(&config("benchmark", "sqlite"), true);
    assert_eq!(p.trace_store, TraceStoreChoice::Sqlite);
    assert_eq!(p.policy, PolicyProfile::Benchmark);
    assert_eq!(p.executor, ExecutorChoice::LinuxCgroup);
    assert_eq!(p.max_cpu_weight, 10000);
    assert_eq!(p.max_memory_bytes, 64u64 * 1024 * 1024 * 1024);

    let p = daemon_profile(&config("development", "memory"), false);
    assert_eq!(p.trace_store, TraceStoreChoice::InMemory);
    assert_eq!(p.executor, ExecutorChoice::DryRun);

    let p = daemon_profile(&config("safe-local", "sqlite"), true);
    assert_eq!(p.policy, PolicyProfile::SafeLocal);
    assert_eq!(p.executor, ExecutorChoice::DryRun);
    assert_eq!(p.max_cpu_weight, 1000);
    assert_eq!(p.max_memory_bytes, 16u64 * 1024 * 1024 * 1024);

    let p = daemon_profile(&config("production", "sqlite"), true);
    assert_eq!(p.policy, PolicyProfile::ObserveOnly);
    assert_eq!(default_agent_ids(), vec!["dummy-a", "dummy-b", "security-agent"]);
}
