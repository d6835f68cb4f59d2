//! The decisions of the daemon's tick: which topic each event goes to, which decisions
//! are executed, and how the tick's executions are tallied. Observing, agent runs, policy
//! and safety evaluation and publishing happen around these, outside the library.
use vstd::prelude::*;
use crate::clock::now_utc;
use crate::domain::action::{ActionKind, ActionResult, ActionStatus};
use crate::domain::decision::{Decision, DecisionOutcome};
use crate::domain::event::{EventEnvelope, EventPayload, Incident, IncidentCategory, IncidentSeverity, Topic};
use crate::domain::metrics::{MetricCollection, MetricLabel, MetricSample, MetricValue};
use crate::domain::number::Real64;
use crate::domain::observation::{Observation, ObservationSource};
use crate::ids::{AgentId, IdSource, ProposalId, TraceId};
use crate::text::concat3;

verus! {

/// The topic of an observation from `source`: `observations.<source>` in lower case.
pub open spec fn observation_topic_text(source: ObservationSource) -> Seq<char> {
    match source {
        ObservationSource::Process => "observations.process"@,
        ObservationSource::Memory => "observations.memory"@,
        ObservationSource::Cpu => "observations.cpu"@,
        ObservationSource::Cgroup => "observations.cgroup"@,
        ObservationSource::File => "observations.file"@,
        ObservationSource::Device => "observations.device"@,
        ObservationSource::Network => "observations.network"@,
        ObservationSource::Security => "observations.security"@,
        ObservationSource::Benchmark => "observations.benchmark"@,
    }
}

/// The topic of an observation from `source` (see `observation_topic_text`).
pub fn observation_topic(source: ObservationSource) -> (t: &'static str)
    ensures
        t@ == observation_topic_text(source),
{
    match source {
        ObservationSource::Process => "observations.process",
        ObservationSource::Memory => "observations.memory",
        ObservationSource::Cpu => "observations.cpu",
        ObservationSource::Cgroup => "observations.cgroup",
        ObservationSource::File => "observations.file",
        ObservationSource::Device => "observations.device",
        ObservationSource::Network => "observations.network",
        ObservationSource::Security => "observations.security",
        ObservationSource::Benchmark => "observations.benchmark",
    }
}

/// The envelope that publishes `obs` on its source's topic in trace `trace_id`.
pub fn observation_envelope(obs: &Observation, trace_id: &TraceId, ids: &mut IdSource) -> (e: EventEnvelope)
    ensures
        e.topic.0@ == observation_topic_text(obs.source),
        e.trace_id == *trace_id,
        e.payload == EventPayload::Observation(*obs),
        e.causation_id.is_none(),
        crate::clock::is_timestamp(e.timestamp@),
        e.id@ == "MessageId-"@ + crate::text::decimal(old(ids).message as nat),
        *final(ids) == (IdSource { message: crate::ids::next_sequence(old(ids).message), ..*old(ids) }),
{
    let topic = Topic::new(observation_topic(obs.source).to_owned());
    EventEnvelope::new(topic, trace_id.clone(), EventPayload::Observation(obs.clone()), ids)
}

/// The name `<stream>.<name>` of a per-agent or per-category stream.
pub open spec fn stream_name(stream: Seq<char>, name: Seq<char>) -> Seq<char> {
    stream + "."@ + name
}

/// The topic `<stream>.<name>`, as the daemon names per-agent and per-category streams
/// (`proposals.<agent>`, `decisions.<agent>`, `results.<agent>`, `recommendations.<agent>`,
/// `incidents.<category>`).
pub fn stream_topic(stream: &str, name: &str) -> (t: Topic)
    ensures
        t.0@ == stream_name(stream@, name@),
{
    Topic::new(concat3(stream, ".", name))
}

/// `e` is the envelope of a daemon error with `description` in trace `trace_id`: on topic
/// `system.error`, an error-severity executor-failure incident from agent `daemon`, with
/// incident id number `incident_seq` and message id number `message_seq`.
pub open spec fn is_error_envelope(
    e: EventEnvelope,
    trace_id: TraceId,
    description: Seq<char>,
    incident_seq: u64,
    message_seq: u64,
) -> bool {
    &&& e.topic.0@ == "system.error"@
    &&& e.trace_id == trace_id
    &&& e.causation_id.is_none()
    &&& crate::clock::is_timestamp(e.timestamp@)
    &&& e.id@ == "MessageId-"@ + crate::text::decimal(message_seq as nat)
    &&& e.payload matches EventPayload::Incident(i) && {
        &&& i.incident_id@ == "IncidentId-"@ + crate::text::decimal(incident_seq as nat)
        &&& i.category == IncidentCategory::ExecutorFailure
        &&& i.severity == IncidentSeverity::Error
        &&& i.source_agent@ == "daemon"@
        &&& i.source_observation.is_none()
        &&& i.correlation_id.is_none()
        &&& i.description@ == description
        &&& crate::clock::is_timestamp(i.timestamp@)
    }
}

/// The envelope of a daemon error (see `is_error_envelope`).
pub fn error_envelope(trace_id: &TraceId, description: &str, ids: &mut IdSource) -> (e: EventEnvelope)
    ensures
        is_error_envelope(e, *trace_id, description@, old(ids).incident, old(ids).message),
        *final(ids) == (IdSource {
            incident: crate::ids::next_sequence(old(ids).incident),
            message: crate::ids::next_sequence(old(ids).message),
            ..*old(ids)
        }),
{
    let incident = Incident::new(
        IncidentCategory::ExecutorFailure,
        IncidentSeverity::Error,
        AgentId::from_string("daemon"),
        None,
        description.to_owned(),
        ids,
    );
    EventEnvelope::new(Topic::new("system.error".to_owned()), trace_id.clone(), EventPayload::Incident(incident), ids)
}

/// The labels of every daemon metric: `service=daemon`.
pub fn labels() -> (l: Vec<MetricLabel>)
    ensures
        l@.len() == 1,
        l@[0].name@ == "service"@,
        l@[0].value@ == "daemon"@,
{
    let mut l: Vec<MetricLabel> = Vec::new();
    l.push(MetricLabel { name: "service".to_owned(), value: "daemon".to_owned() });
    l
}

/// `s` is the daemon sample `name` with value `value`, labelled `service=daemon` and
/// stamped with a timestamp.
pub open spec fn is_daemon_sample(s: MetricSample, name: Seq<char>, value: MetricValue) -> bool {
    &&& s.name@ == name
    &&& s.value == value
    &&& s.labels@.len() == 1
    &&& s.labels@[0].name@ == "service"@
    &&& s.labels@[0].value@ == "daemon"@
    &&& crate::clock::is_timestamp(s.timestamp@)
}

fn daemon_sample(name: &str, value: MetricValue) -> (s: MetricSample)
    ensures
        is_daemon_sample(s, name@, value),
{
    MetricSample { name: name.to_owned(), value, labels: labels(), timestamp: now_utc() }
}

/// The daemon's metrics of a tick, from source `daemon.service`: the gauges
/// `active_agents` and `proposal_queue_depth` and the one-sample histograms
/// `decision_latency_ms` and `executor_latency_ms`, in that order.
pub fn build_metrics(
    active_agents: Real64,
    proposal_depth: Real64,
    decision_latency_ms: Real64,
    executor_latency_ms: Real64,
) -> (m: MetricCollection)
    ensures
        m.source@ == "daemon.service"@,
        m.samples@.len() == 4,
        is_daemon_sample(m.samples@[0], "active_agents"@, MetricValue::Gauge(active_agents)),
        is_daemon_sample(m.samples@[1], "proposal_queue_depth"@, MetricValue::Gauge(proposal_depth)),
        m.samples@[2].value matches MetricValue::Histogram(h) && h@ == seq![decision_latency_ms]
            && is_daemon_sample(m.samples@[2], "decision_latency_ms"@, m.samples@[2].value),
        m.samples@[3].value matches MetricValue::Histogram(h) && h@ == seq![executor_latency_ms]
            && is_daemon_sample(m.samples@[3], "executor_latency_ms"@, m.samples@[3].value),
{
    let mut samples: Vec<MetricSample> = Vec::new();
    samples.push(daemon_sample("active_agents", MetricValue::Gauge(active_agents)));
    samples.push(daemon_sample("proposal_queue_depth", MetricValue::Gauge(proposal_depth)));
    let mut decision: Vec<Real64> = Vec::new();
    decision.push(decision_latency_ms);
    samples.push(daemon_sample("decision_latency_ms", MetricValue::Histogram(decision)));
    let mut executor: Vec<Real64> = Vec::new();
    executor.push(executor_latency_ms);
    samples.push(daemon_sample("executor_latency_ms", MetricValue::Histogram(executor)));
    proof {
        assert(samples@[2].value matches MetricValue::Histogram(h) && h@ =~= seq![decision_latency_ms]);
        assert(samples@[3].value matches MetricValue::Histogram(h) && h@ =~= seq![executor_latency_ms]);
    }
    MetricCollection { samples, source: "daemon.service".to_owned() }
}

/// What the daemon does with a proposal's decision.
#[derive(Clone, Copy, Debug, PartialEq, Eq, Structural)]
pub enum Disposition {
    /// The safety governor held the decision back: neither executed nor counted as a denial.
    SafetyVetoed,
    /// Approved by policy and passed by safety: execute the action.
    Execute,
    /// Denied by policy, or awaiting approval: count a denial.
    Deny,
}

/// The disposition of a decision, given the proposals whose decisions passed safety.
pub open spec fn disposition_of(decision: Decision, safe: Seq<ProposalId>) -> Disposition {
    if !(exists|k: int| 0 <= k < safe.len() && #[trigger] safe[k]@ == decision.proposal_id@) {
        Disposition::SafetyVetoed
    } else {
        match decision.outcome {
            DecisionOutcome::Approved => Disposition::Execute,
            _ => Disposition::Deny,
        }
    }
}

/// The disposition of `decision` when the decisions of the proposals `safe` passed safety
/// (see `disposition_of`).
pub fn disposition(decision: &Decision, safe: &[ProposalId]) -> (d: Disposition)
    ensures
        d == disposition_of(*decision, safe@),
{
    let mut k: usize = 0;
    while k < safe.len()
        invariant
            k <= safe@.len(),
            forall|j: int| 0 <= j < k ==> safe@[j]@ != decision.proposal_id@,
        decreases safe.len() - k,
    {
        if safe[k].same_as(&decision.proposal_id) {
            return match decision.outcome {
                DecisionOutcome::Approved => Disposition::Execute,
                _ => Disposition::Deny,
            };
        }
        k = k + 1;
    }
    Disposition::SafetyVetoed
}

/// The counts of a tick's executions.
#[derive(Clone, Copy, Debug, PartialEq, Eq, Structural)]
pub struct ExecutionTally {
    /// Decisions executed (whatever the result).
    pub approvals: u64,
    /// Decisions denied or awaiting approval.
    pub denials: u64,
    pub successful_mutations: u64,
    pub failed_mutations: u64,
    /// Successful executions that recorded an undo token.
    pub rollback_count: u64,
    pub cpu_weight_changes: u64,
    pub cpu_max_changes: u64,
    pub memory_max_changes: u64,
    /// Milliseconds spent executing.
    pub executor_total_ms: u64,
}

/// No count of `t` is at its maximum, and `more_ms` more milliseconds fit.
pub open spec fn has_room(t: ExecutionTally, more_ms: u64) -> bool {
    &&& t.approvals < u64::MAX
    &&& t.denials < u64::MAX
    &&& t.successful_mutations < u64::MAX
    &&& t.failed_mutations < u64::MAX
    &&& t.rollback_count < u64::MAX
    &&& t.cpu_weight_changes < u64::MAX
    &&& t.cpu_max_changes < u64::MAX
    &&& t.memory_max_changes < u64::MAX
    &&& t.executor_total_ms + more_ms <= u64::MAX
}

/// The tally after executing an action of `kind` with result `r` in `ms` milliseconds:
/// one more approval and `ms` more milliseconds; a success counts a successful mutation,
/// a change of its kind (for `cpu.weight`, `cpu.max` and `memory.max`) and, when it
/// recorded an undo token, a rollback; a failure counts a failed mutation.
pub open spec fn after_execution(t: ExecutionTally, kind: ActionKind, r: ActionResult, ms: u64) -> ExecutionTally {
    let base = ExecutionTally {
        approvals: (t.approvals + 1) as u64,
        executor_total_ms: (t.executor_total_ms + ms) as u64,
        ..t
    };
    match r.status {
        ActionStatus::Succeeded => ExecutionTally {
            successful_mutations: (t.successful_mutations + 1) as u64,
            cpu_weight_changes: if kind is CgroupSetCpuWeight { (t.cpu_weight_changes + 1) as u64 } else { t.cpu_weight_changes },
            cpu_max_changes: if kind is CgroupSetCpuMax { (t.cpu_max_changes + 1) as u64 } else { t.cpu_max_changes },
            memory_max_changes: if kind is CgroupSetMemoryMax { (t.memory_max_changes + 1) as u64 } else { t.memory_max_changes },
            rollback_count: if r.rollback.is_some() { (t.rollback_count + 1) as u64 } else { t.rollback_count },
            ..base
        },
        ActionStatus::Failed => ExecutionTally { failed_mutations: (t.failed_mutations + 1) as u64, ..base },
        _ => base,
    }
}

/// The tally of a tick before any execution: all zero.
pub open spec fn zero_tally() -> ExecutionTally {
    ExecutionTally {
        approvals: 0,
        denials: 0,
        successful_mutations: 0,
        failed_mutations: 0,
        rollback_count: 0,
        cpu_weight_changes: 0,
        cpu_max_changes: 0,
        memory_max_changes: 0,
        executor_total_ms: 0,
    }
}

impl ExecutionTally {
    /// The tally of a tick before any execution (see `zero_tally`).
    pub fn new() -> (t: Self)
        ensures
            t == zero_tally(),
    {
        ExecutionTally {
            approvals: 0,
            denials: 0,
            successful_mutations: 0,
            failed_mutations: 0,
            rollback_count: 0,
            cpu_weight_changes: 0,
            cpu_max_changes: 0,
            memory_max_changes: 0,
            executor_total_ms: 0,
        }
    }

    /// Counts a denied decision (or one awaiting approval).
    pub fn record_denial(&mut self)
        requires
            old(self).denials < u64::MAX,
        ensures
            *final(self) == (ExecutionTally { denials: (old(self).denials + 1) as u64, ..*old(self) }),
    {
        self.denials = self.denials + 1;
    }

    /// Counts an execution of an action of `kind` that returned `result` after `ms`
    /// milliseconds (see `after_execution`).
    pub fn record_execution(&mut self, kind: &ActionKind, result: &ActionResult, ms: u64)
        requires
            has_room(*old(self), ms),
        ensures
            *final(self) == after_execution(*old(self), *kind, *result, ms),
    {
        self.approvals = self.approvals + 1;
        self.executor_total_ms = self.executor_total_ms + ms;
        match result.status {
            ActionStatus::Succeeded => {
                self.successful_mutations = self.successful_mutations + 1;
                match kind {
                    ActionKind::CgroupSetCpuWeight { .. } => {
                        self.cpu_weight_changes = self.cpu_weight_changes + 1;
                    },
                    ActionKind::CgroupSetCpuMax { .. } => {
                        self.cpu_max_changes = self.cpu_max_changes + 1;
                    },
                    ActionKind::CgroupSetMemoryMax { .. } => {
                        self.memory_max_changes = self.memory_max_changes + 1;
                    },
                    _ => {},
                }
                if result.rollback.is_some() {
                    self.rollback_count = self.rollback_count + 1;
                }
            },
            ActionStatus::Failed => {
                self.failed_mutations = self.failed_mutations + 1;
            },
            _ => {},
        }
    }

    /// Counts an execution that the executor could not carry out at all: a failed
    /// mutation, not an approval.
    pub fn record_execution_error(&mut self)
        requires
            old(self).failed_mutations < u64::MAX,
        ensures
            *final(self) == (ExecutionTally { failed_mutations: (old(self).failed_mutations + 1) as u64, ..*old(self) }),
    {
        self.failed_mutations = self.failed_mutations + 1;
    }
}

} // verus!
