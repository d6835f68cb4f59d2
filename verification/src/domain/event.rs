//! Events carried by the bus and recorded in traces.
use vstd::prelude::*;
use crate::clock::now_utc;
use crate::domain::action::{ActionRequest, ActionResult};
use crate::domain::decision::Decision;
use crate::domain::observation::Observation;
use crate::domain::proposal::Proposal;
use crate::domain::recommendation::Recommendation;
use crate::ids::{AgentId, IdSource, IncidentId, MessageId, ObservationId, TraceId};
use crate::text::{chars_of, decimal, ends_with_seq, occurs_at_vec, starts_with_seq, vec_chars_eq};

verus! {

/// A dotted topic name such as `"proposals.memory-agent"`.
#[derive(Debug, PartialEq, Eq)]
pub struct Topic(pub String);

impl Clone for Topic {
    fn clone(&self) -> (r: Self)
        ensures
            r == *self,
    {
        Topic(self.0.clone())
    }
}

impl View for Topic {
    type V = Seq<char>;

    open spec fn view(&self) -> Seq<char> {
        self.0@
    }
}

/// Whether a topic named `topic` is selected by the filter `filter`:
/// `"*"` selects every topic; `"<prefix>.*"` selects `<prefix>` itself and every topic
/// that begins with `"<prefix>."`; any other filter selects exactly the topic of that name.
pub open spec fn topic_matches(topic: Seq<char>, filter: Seq<char>) -> bool {
    if filter == seq!['*'] {
        true
    } else if ends_with_seq(filter, seq!['.', '*']) {
        let prefix = filter.subrange(0, filter.len() - 2);
        topic == prefix || starts_with_seq(topic, prefix.push('.'))
    } else {
        topic == filter
    }
}

impl Topic {
    pub fn new(value: String) -> (t: Self)
        ensures
            t@ == value@,
    {
        Topic(value)
    }

    pub fn as_str(&self) -> (s: &str)
        ensures
            s@ == self@,
    {
        self.0.as_str()
    }

    /// Whether this topic is selected by `filter` (see `topic_matches`).
    pub fn matches(&self, filter: &Topic) -> (b: bool)
        ensures
            b == topic_matches(self@, filter@),
    {
        let f = chars_of(filter.0.as_str());
        let t = chars_of(self.0.as_str());
        if f.len() == 1 && f[0] == '*' {
            assert(f@ =~= seq!['*']);
            return true;
        }
        assert(f@ != seq!['*']);
        let n = f.len();
        if n >= 2 && f[n - 2] == '.' && f[n - 1] == '*' {
            assert(f@.subrange(n - 2, n as int) =~= seq!['.', '*']);
            let mut prefix: Vec<char> = Vec::new();
            let mut i: usize = 0;
            while i < n - 2
                invariant
                    n == f@.len(),
                    n >= 2,
                    i <= n - 2,
                    prefix@ == f@.subrange(0, i as int),
                decreases n - 2 - i,
            {
                prefix.push(f[i]);
                i = i + 1;
                assert(prefix@ =~= f@.subrange(0, i as int));
            }
            if vec_chars_eq(&t, &prefix) {
                return true;
            }
            let mut dotted = prefix;
            dotted.push('.');
            return occurs_at_vec(&t, &dotted, 0);
        }
        assert(!ends_with_seq(f@, seq!['.', '*'])) by {
            if ends_with_seq(f@, seq!['.', '*']) {
                assert(f@.subrange(n - 2, n as int)[0] == '.');
                assert(f@.subrange(n - 2, n as int)[1] == '*');
            }
        }
        vec_chars_eq(&t, &f)
    }
}

/// A message on the bus.
#[derive(Debug)]
pub struct EventEnvelope {
    pub id: MessageId,
    pub trace_id: TraceId,
    pub causation_id: Option<MessageId>,
    pub topic: Topic,
    pub timestamp: String,
    pub payload: EventPayload,
}

impl EventEnvelope {
    /// A new envelope with a fresh message id, stamped with the current time and no cause.
    pub fn new(topic: Topic, trace_id: TraceId, payload: EventPayload, ids: &mut IdSource) -> (e: Self)
        ensures
            e.id@ == "MessageId-"@ + decimal(old(ids).message as nat),
            *final(ids) == (IdSource { message: crate::ids::next_sequence(old(ids).message), ..*old(ids) }),
            e.trace_id == trace_id,
            e.causation_id.is_none(),
            e.topic == topic,
            e.payload == payload,
            crate::clock::is_timestamp(e.timestamp@),
    {
        let id = ids.next_message_id();
        let timestamp = now_utc();
        EventEnvelope { id, trace_id, causation_id: None, topic, timestamp, payload }
    }

    /// The same envelope, recording `causation_id` as the message that caused it.
    pub fn with_causation(self, causation_id: MessageId) -> (e: Self)
        ensures
            e == (EventEnvelope { causation_id: Some(causation_id), ..self }),
    {
        EventEnvelope { causation_id: Some(causation_id), ..self }
    }
}

/// What an event carries.
#[derive(Debug)]
pub enum EventPayload {
    Observation(Observation),
    Proposal(Proposal),
    Decision(Decision),
    ActionRequest(ActionRequest),
    ActionResult(ActionResult),
    Incident(Incident),
    Recommendation(Recommendation),
    Trace(TraceEvent),
}

/// A governance event: a security concern, policy violation or component failure.
/// Incidents never trigger actions directly.
#[derive(Debug)]
pub struct Incident {
    pub incident_id: IncidentId,
    pub category: IncidentCategory,
    pub severity: IncidentSeverity,
    pub source_agent: AgentId,
    pub source_observation: Option<ObservationId>,
    pub correlation_id: Option<String>,
    pub timestamp: String,
    pub description: String,
}

impl Incident {
    /// A new incident with a fresh id, stamped with the current time and no correlation.
    pub fn new(
        category: IncidentCategory,
        severity: IncidentSeverity,
        source_agent: AgentId,
        source_observation: Option<ObservationId>,
        description: String,
        ids: &mut IdSource,
    ) -> (inc: Self)
        ensures
            inc.incident_id@ == "IncidentId-"@ + decimal(old(ids).incident as nat),
            *final(ids) == (IdSource { incident: crate::ids::next_sequence(old(ids).incident), ..*old(ids) }),
            inc.category == category,
            inc.severity == severity,
            inc.source_agent == source_agent,
            inc.source_observation == source_observation,
            inc.correlation_id.is_none(),
            crate::clock::is_timestamp(inc.timestamp@),
            inc.description == description,
    {
        let incident_id = ids.next_incident_id();
        let timestamp = now_utc();
        Incident {
            incident_id,
            category,
            severity,
            source_agent,
            source_observation,
            correlation_id: None,
            timestamp,
            description,
        }
    }

    /// The same incident, correlated with `correlation_id`.
    pub fn with_correlation(self, correlation_id: String) -> (inc: Self)
        ensures
            inc == (Incident { correlation_id: Some(correlation_id), ..self }),
    {
        Incident { correlation_id: Some(correlation_id), ..self }
    }
}

#[derive(Clone, Copy, Debug, PartialEq, Eq, Structural)]
pub enum IncidentCategory {
    Security,
    ResourceContention,
    GovernanceViolation,
    PolicyViolation,
    ExecutorFailure,
    AgentFailure,
}

/// The label of a category as used in topic names and logs.
pub open spec fn category_label(c: IncidentCategory) -> Seq<char> {
    match c {
        IncidentCategory::Security => "security"@,
        IncidentCategory::ResourceContention => "resource-contention"@,
        IncidentCategory::GovernanceViolation => "governance-violation"@,
        IncidentCategory::PolicyViolation => "policy-violation"@,
        IncidentCategory::ExecutorFailure => "executor-failure"@,
        IncidentCategory::AgentFailure => "agent-failure"@,
    }
}

impl IncidentCategory {
    /// Human-readable label for use in topic names and logs.
    pub fn description(&self) -> (s: &'static str)
        ensures
            s@ == category_label(*self),
    {
        match self {
            IncidentCategory::Security => "security",
            IncidentCategory::ResourceContention => "resource-contention",
            IncidentCategory::GovernanceViolation => "governance-violation",
            IncidentCategory::PolicyViolation => "policy-violation",
            IncidentCategory::ExecutorFailure => "executor-failure",
            IncidentCategory::AgentFailure => "agent-failure",
        }
    }
}

#[derive(Clone, Copy, Debug, PartialEq, Eq, Structural)]
pub enum IncidentSeverity {
    Info,
    Warning,
    Error,
    Critical,
}

/// A free-form trace message.
#[derive(Debug)]
pub struct TraceEvent {
    pub message: String,
}

impl Clone for TraceEvent {
    fn clone(&self) -> (r: Self)
        ensures
            r == *self,
    {
        TraceEvent { message: self.message.clone() }
    }
}

impl Clone for Incident {
    fn clone(&self) -> (r: Self)
        ensures
            r == *self,
    {
        Incident {
            incident_id: self.incident_id.clone(),
            category: self.category,
            severity: self.severity,
            source_agent: self.source_agent.clone(),
            source_observation: match &self.source_observation {
                Some(o) => Some(o.clone()),
                None => None,
            },
            correlation_id: match &self.correlation_id {
                Some(c) => Some(c.clone()),
                None => None,
            },
            timestamp: self.timestamp.clone(),
            description: self.description.clone(),
        }
    }
}

/// `r` is a copy of `s`: the same variant with the same content (a proposal's supporting
/// observations and a recommendation's provider compared by their contents).
pub open spec fn payload_copy(r: EventPayload, s: EventPayload) -> bool {
    match (r, s) {
        (EventPayload::Observation(a), EventPayload::Observation(b)) => a == b,
        (EventPayload::Proposal(a), EventPayload::Proposal(b)) => {
            &&& a.id == b.id
            &&& a.agent_id == b.agent_id
            &&& a.created_at == b.created_at
            &&& a.based_on@ == b.based_on@
            &&& a.requested_action == b.requested_action
            &&& a.rationale == b.rationale
            &&& a.confidence == b.confidence
        },
        (EventPayload::Decision(a), EventPayload::Decision(b)) => a == b,
        (EventPayload::ActionRequest(a), EventPayload::ActionRequest(b)) => a == b,
        (EventPayload::ActionResult(a), EventPayload::ActionResult(b)) => a == b,
        (EventPayload::Incident(a), EventPayload::Incident(b)) => a == b,
        (EventPayload::Recommendation(a), EventPayload::Recommendation(b)) => {
            &&& a.id == b.id
            &&& a.source_agent == b.source_agent
            &&& a.timestamp == b.timestamp
            &&& a.confidence == b.confidence
            &&& a.summary == b.summary
            &&& a.reasoning == b.reasoning
            &&& match (a.provider, b.provider) {
                (Some(x), Some(y)) => crate::domain::recommendation::same_metadata(x, y),
                (None, None) => true,
                _ => false,
            }
        },
        (EventPayload::Trace(a), EventPayload::Trace(b)) => a == b,
        _ => false,
    }
}

impl Clone for EventPayload {
    fn clone(&self) -> (r: Self)
        ensures
            payload_copy(r, *self),
    {
        match self {
            EventPayload::Observation(o) => EventPayload::Observation(o.clone()),
            EventPayload::Proposal(p) => EventPayload::Proposal(p.clone()),
            EventPayload::Decision(d) => EventPayload::Decision(d.clone()),
            EventPayload::ActionRequest(a) => EventPayload::ActionRequest(a.clone()),
            EventPayload::ActionResult(a) => EventPayload::ActionResult(a.clone()),
            EventPayload::Incident(i) => EventPayload::Incident(i.clone()),
            EventPayload::Recommendation(r) => EventPayload::Recommendation(r.clone()),
            EventPayload::Trace(t) => EventPayload::Trace(t.clone()),
        }
    }
}

impl Clone for EventEnvelope {
    fn clone(&self) -> (r: Self)
        ensures
            r.id == self.id,
            r.trace_id == self.trace_id,
            r.causation_id == self.causation_id,
            r.topic == self.topic,
            r.timestamp == self.timestamp,
            payload_copy(r.payload, self.payload),
    {
        EventEnvelope {
            id: self.id.clone(),
            trace_id: self.trace_id.clone(),
            causation_id: match &self.causation_id {
                Some(c) => Some(c.clone()),
                None => None,
            },
            topic: self.topic.clone(),
            timestamp: self.timestamp.clone(),
            payload: self.payload.clone(),
        }
    }
}

} // verus!
