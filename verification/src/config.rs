//! Daemon configuration, as read from its TOML file.
use vstd::prelude::*;

verus! {

/// The daemon configuration.
#[derive(Debug)]
pub struct DaemonConfig {
    pub agenticos: AgenticosConfig,
    pub safety: SafetyConfig,
}

/// The `[agenticos]` section.
#[derive(Debug)]
pub struct AgenticosConfig {
    pub mode: String,
    pub event_store: String,
    pub db_path: String,
    pub policy: String,
}

/// The `[safety]` section: privileged execution and LLM use, both off unless enabled.
#[derive(Clone, Copy, Debug, PartialEq, Eq, Structural)]
pub struct SafetyConfig {
    pub privileged_execution: bool,
    pub llm_enabled: bool,
}

impl Default for SafetyConfig {
    fn default() -> (c: Self)
        ensures
            !c.privileged_execution,
            !c.llm_enabled,
    {
        SafetyConfig { privileged_execution: default_privileged(), llm_enabled: default_llm() }
    }
}

/// Privileged execution is off unless the configuration enables it.
pub fn default_privileged() -> (b: bool)
    ensures
        !b,
{
    false
}

/// LLM use is off unless the configuration enables it.
pub fn default_llm() -> (b: bool)
    ensures
        !b,
{
    false
}

impl DaemonConfig {
    pub fn db_path(&self) -> (s: &str)
        ensures
            s@ == self.agenticos.db_path@,
    {
        self.agenticos.db_path.as_str()
    }

    pub fn event_store(&self) -> (s: &str)
        ensures
            s@ == self.agenticos.event_store@,
    {
        self.agenticos.event_store.as_str()
    }

    pub fn policy_path(&self) -> (s: &str)
        ensures
            s@ == self.agenticos.policy@,
    {
        self.agenticos.policy.as_str()
    }

    pub fn mode(&self) -> (s: &str)
        ensures
            s@ == self.agenticos.mode@,
    {
        self.agenticos.mode.as_str()
    }
}

/// Which policy kernel the daemon runs.
#[derive(Clone, Copy, Debug, PartialEq, Eq, Structural)]
pub enum PolicyProfile {
    /// The kernel's `safe-local` profile.
    SafeLocal,
    /// The kernel's benchmark profile.
    Benchmark,
    /// A kernel `policy-kernel` that allows only observation, no medium or high risk, at
    /// any confidence.
    ObserveOnly,
}

/// Which executor carries out approved actions.
#[derive(Clone, Copy, Debug, PartialEq, Eq, Structural)]
pub enum ExecutorChoice {
    /// The Linux cgroup v2 executor under `/sys/fs/cgroup`.
    LinuxCgroup,
    DryRun,
}

/// Where traces are stored.
#[derive(Clone, Copy, Debug, PartialEq, Eq, Structural)]
pub enum TraceStoreChoice {
    /// The SQLite store at the configured database path.
    Sqlite,
    InMemory,
}

/// The components that the daemon assembles from its configuration.
#[derive(Clone, Copy, Debug, PartialEq, Eq, Structural)]
pub struct DaemonProfile {
    pub trace_store: TraceStoreChoice,
    pub policy: PolicyProfile,
    pub executor: ExecutorChoice,
    /// The safety governor's largest allowed `cpu.weight`.
    pub max_cpu_weight: u64,
    /// The safety governor's largest allowed `memory.max`, in bytes.
    pub max_memory_bytes: u64,
}

/// `mode` is one of the permissive modes, `benchmark` and `development`.
pub open spec fn permissive(mode: Seq<char>) -> bool {
    mode == "benchmark"@ || mode == "development"@
}

/// The daemon's components for `mode` and `event_store` on a Linux host or not: SQLite
/// traces for `sqlite`, else in memory; the `safe-local` policy for that mode, the
/// benchmark policy in the permissive modes, else observation only; the cgroup executor
/// on Linux in the permissive modes, else a dry run; a safety governor allowing
/// `cpu.weight` 10000 and 64 GiB of memory in the permissive modes, else 1000 and 16 GiB
/// (it always vetoes on security incidents).
pub open spec fn profile_of(mode: Seq<char>, event_store: Seq<char>, linux: bool) -> DaemonProfile {
    DaemonProfile {
        trace_store: if event_store == "sqlite"@ { TraceStoreChoice::Sqlite } else { TraceStoreChoice::InMemory },
        policy: if mode == "safe-local"@ {
            PolicyProfile::SafeLocal
        } else if permissive(mode) {
            PolicyProfile::Benchmark
        } else {
            PolicyProfile::ObserveOnly
        },
        executor: if linux && permissive(mode) { ExecutorChoice::LinuxCgroup } else { ExecutorChoice::DryRun },
        max_cpu_weight: if permissive(mode) { 10000 } else { 1000 },
        max_memory_bytes: if permissive(mode) { 68719476736 } else { 17179869184 },
    }
}

/// The daemon's components for the configured mode and event store (see `profile_of`).
pub fn daemon_profile(config: &DaemonConfig, linux: bool) -> (p: DaemonProfile)
    ensures
        p == profile_of(config.agenticos.mode@, config.agenticos.event_store@, linux),
{
    let mode = config.mode();
    let permissive = crate::text::str_eq(mode, "benchmark") || crate::text::str_eq(mode, "development");
    DaemonProfile {
        trace_store: if crate::text::str_eq(config.event_store(), "sqlite") {
            TraceStoreChoice::Sqlite
        } else {
            TraceStoreChoice::InMemory
        },
        policy: if crate::text::str_eq(mode, "safe-local") {
            PolicyProfile::SafeLocal
        } else if permissive {
            PolicyProfile::Benchmark
        } else {
            PolicyProfile::ObserveOnly
        },
        executor: if linux && permissive { ExecutorChoice::LinuxCgroup } else { ExecutorChoice::DryRun },
        max_cpu_weight: if permissive { 10000 } else { 1000 },
        max_memory_bytes: if permissive { 64 * 1024 * 1024 * 1024 } else { 16 * 1024 * 1024 * 1024 },
    }
}

/// The agents that the daemon registers and starts, in order.
pub fn default_agent_ids() -> (ids: Vec<&'static str>)
    ensures
        ids@.len() == 3,
        ids@[0]@ == "dummy-a"@,
        ids@[1]@ == "dummy-b"@,
        ids@[2]@ == "security-agent"@,
{
    let mut ids: Vec<&'static str> = Vec::new();
    ids.push("dummy-a");
    ids.push("dummy-b");
    ids.push("security-agent");
    ids
}

} // verus!
