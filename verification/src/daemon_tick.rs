//! One tick of the daemon as a step machine. The daemon loop performs each request
//! (observe, classify the workload, collect the agents' proposals and incidents, evaluate
//! policy, consult the safety governor, execute, report) and hands the outcome back; the
//! machine decides what is published, what is executed and what comes next. An error of
//! any component abandons the tick after publishing it.
use vstd::prelude::*;
use crate::application::AppError;
use crate::daemon::{
    disposition, disposition_of, error_envelope, is_error_envelope, observation_envelope,
    observation_topic_text, stream_name, stream_topic, after_execution, zero_tally, Disposition, ExecutionTally,
};
use crate::domain::action::{ActionResult, ApprovedAction};
use crate::domain::decision::Decision;
use crate::domain::event::{category_label, payload_copy, EventEnvelope, EventPayload, Incident, TraceEvent};
use crate::domain::observation::Observation;
use crate::domain::proposal::Proposal;
use crate::domain::recommendation::Recommendation;
use crate::ids::{next_sequence, sequence_after, AgentId, IdSource, ProposalId, TraceId};
use crate::text::{concat2, decimal, push_decimal, with_decimal};

verus! {

/// A veto of the safety governor, as the daemon traces it.
#[derive(Debug)]
pub struct VetoNote {
    pub proposal_id: ProposalId,
    /// The reason's label, as used in topic names.
    pub reason_label: String,
    /// The reason as its `Debug` rendering shows it.
    pub reason_debug: String,
    pub explanation: String,
}

/// The safety governor's counts for a tick.
#[derive(Clone, Copy, Debug, PartialEq, Eq, Structural)]
pub struct SafetyCounts {
    pub veto_count: u64,
    pub safety_escalations: u64,
    pub freeze_ticks: u64,
    pub selective_vetoes: u64,
    pub global_vetoes: u64,
}

/// The safety governor's verdict on a tick's decisions.
#[derive(Debug)]
pub struct SafetyVerdict {
    /// The proposals whose decisions passed safety.
    pub approved: Vec<ProposalId>,
    pub vetoes: Vec<VetoNote>,
    /// Incidents that the governor raised.
    pub escalations: Vec<Incident>,
    pub counts: SafetyCounts,
}

/// Where a tick stands.
#[derive(Clone, Copy, Debug, PartialEq, Eq, Structural)]
pub enum TickStage {
    Observing,
    Classifying,
    CollectingProposals,
    CollectingIncidents,
    Evaluating,
    Governing,
    Executing,
    Reporting,
    Abandoned,
}

/// What the daemon loop does next.
#[derive(Debug)]
pub enum TickRequest {
    /// Observe the system and call `observed`.
    Observe,
    /// Classify the workload and call `classified`.
    Classify,
    /// Collect the agents' proposals and call `proposals_collected`.
    CollectProposals,
    /// Collect the agents' incidents and call `incidents_collected`.
    CollectIncidents,
    /// Evaluate policy over the tick's inputs and call `evaluated`.
    EvaluatePolicy,
    /// Consult the safety governor about the decisions and call `governed`.
    Govern,
    /// Execute `action` and call `executed`.
    Execute(ApprovedAction),
    /// Publish the tick's metrics; the tick is complete.
    Report,
    /// The tick is abandoned after an error.
    Abandon,
}

/// What one step publishes, and what comes next.
#[derive(Debug)]
pub struct TickOutput {
    /// The envelopes to publish on the bus, in order.
    pub publish: Vec<EventEnvelope>,
    /// Whether the envelopes also go to the trace store (daemon errors go to the bus only).
    pub traced: bool,
    pub next: TickRequest,
}

/// The text of an application error (`"application error: <detail>"`).
pub open spec fn app_error_text(e: AppError) -> Seq<char> {
    "application error: "@ + match e {
        AppError::Message(m) => m@,
    }
}

/// `e` is an envelope of trace `trace_id` on `topic`, caused by nothing and stamped with
/// a timestamp.
pub open spec fn on_topic(e: EventEnvelope, trace_id: TraceId, topic: Seq<char>) -> bool {
    &&& e.trace_id == trace_id
    &&& e.topic.0@ == topic
    &&& e.causation_id.is_none()
    &&& crate::clock::is_timestamp(e.timestamp@)
}

/// The envelopes `envs` carry the message ids drawn in order from `start`.
pub open spec fn message_ids_from(envs: Seq<EventEnvelope>, start: u64) -> bool {
    forall|k: int| 0 <= k < envs.len() ==> (#[trigger] envs[k]).id@
        == "MessageId-"@ + decimal(sequence_after(start, k as nat) as nat)
}

/// The source after `n` message ids were drawn from `ids`.
pub open spec fn after_messages(ids: IdSource, n: nat) -> IdSource {
    IdSource { message: sequence_after(ids.message, n), ..ids }
}

/// The dispositions of `decisions` when the proposals `safe` passed safety.
pub open spec fn dispositions(decisions: Seq<Decision>, safe: Seq<ProposalId>) -> Seq<Disposition> {
    decisions.map_values(|d: Decision| disposition_of(d, safe))
}

/// The first position at or after `i`, below `n`, whose disposition is `Execute`; `n`
/// when there is none.
pub open spec fn next_execution(ds: Seq<Disposition>, n: int, i: int) -> int
    decreases n - i,
{
    if i >= n {
        n
    } else if ds[i] == Disposition::Execute {
        i
    } else {
        next_execution(ds, n, i + 1)
    }
}

/// The number of `Deny` dispositions in positions `i .. j`.
pub open spec fn denials_in(ds: Seq<Disposition>, i: int, j: int) -> nat
    decreases j - i,
{
    if i >= j {
        0
    } else {
        denials_in(ds, i, j - 1) + if ds[j - 1] == Disposition::Deny { 1nat } else { 0nat }
    }
}

/// `out` abandons the tick after publishing, on the bus only, one daemon error with
/// `description` (see `is_error_envelope`), drawing one incident id and one message id
/// from `ids0` and leaving `ids1`.
pub open spec fn abandons_with(
    out: TickOutput,
    trace_id: TraceId,
    description: Seq<char>,
    ids0: IdSource,
    ids1: IdSource,
) -> bool {
    &&& out.publish@.len() == 1
    &&& is_error_envelope(out.publish@[0], trace_id, description, ids0.incident, ids0.message)
    &&& !out.traced
    &&& out.next is Abandon
    &&& ids1 == (IdSource {
        incident: next_sequence(ids0.incident),
        message: next_sequence(ids0.message),
        ..ids0
    })
}

/// The trace message of a veto:
/// `veto proposal=<id> reason=<reason as Debug shows it> explanation=<explanation>`.
pub open spec fn veto_text(v: VetoNote) -> Seq<char> {
    "veto proposal="@ + v.proposal_id@ + " reason="@ + v.reason_debug@ + " explanation="@ + v.explanation@
}

/// `e` traces the veto `v` in trace `trace_id`: a trace event on `vetoes.<reason label>`.
pub open spec fn is_veto_envelope(e: EventEnvelope, trace_id: TraceId, v: VetoNote) -> bool {
    &&& on_topic(e, trace_id, stream_name("vetoes"@, v.reason_label@))
    &&& e.payload matches EventPayload::Trace(t) && t.message@ == veto_text(v)
}

/// `next` continues after the decisions before position `j` were disposed of, of `n`
/// paired ones: while `j < n` it executes the action of the `j`-th proposal under the
/// `j`-th decision; after the last pair it reports.
pub open spec fn continues_at(next: TickRequest, ps: Seq<Proposal>, ds: Seq<Decision>, j: int, n: int) -> bool {
    if j < n {
        next matches TickRequest::Execute(a) && a.request == ps[j].requested_action && a.decision_id == ds[j].id
    } else {
        next is Report
    }
}

/// The stage after the decisions before position `j` were disposed of, of `n` paired ones.
pub open spec fn stage_at(j: int, n: int) -> TickStage {
    if j < n { TickStage::Executing } else { TickStage::Reporting }
}

/// The counts of a completed tick that go into its metrics.
#[derive(Clone, Copy, Debug, PartialEq, Eq, Structural)]
pub struct TickReport {
    pub obs_count: u64,
    /// The classifier's count of classifications.
    pub recommendation_count: u64,
    /// The number of vetoes traced.
    pub veto_count: u64,
    pub proposal_depth: u64,
    pub incident_count: u64,
    /// Milliseconds the policy evaluation took.
    pub decision_ms: u64,
    pub tally: ExecutionTally,
    pub safety: SafetyCounts,
    pub classifications_skipped: u64,
}

/// The daemon's log line for a completed tick that took `tick_ms` milliseconds.
pub open spec fn summary_text(r: TickReport, tick_ms: u64) -> Seq<char> {
    let t = r.tally;
    "[agenticos] observe="@ + decimal(r.obs_count as nat)
        + " proposals="@ + decimal(r.proposal_depth as nat)
        + " incidents="@ + decimal(r.incident_count as nat)
        + " vetoes="@ + decimal(r.veto_count as nat)
        + " approved="@ + decimal(t.approvals as nat)
        + " denied="@ + decimal(t.denials as nat)
        + " mutations="@ + decimal(t.successful_mutations as nat)
        + " failed_muts="@ + decimal(t.failed_mutations as nat)
        + " rollbacks="@ + decimal(t.rollback_count as nat)
        + " recs="@ + decimal(r.recommendation_count as nat)
        + " skipped="@ + decimal(r.classifications_skipped as nat)
        + " tick="@ + decimal(tick_ms as nat)
        + "ms decision_latency="@ + decimal(r.decision_ms as nat)
        + "ms exec_latency="@ + decimal(t.executor_total_ms as nat) + "ms"@
}

/// The daemon's log line for a completed tick (see `summary_text`).
pub fn summary_line(r: &TickReport, tick_ms: u64) -> (line: String)
    ensures
        line@ == summary_text(*r, tick_ms),
{
    let t = &r.tally;
    let mut s = with_decimal("[agenticos] observe=", r.obs_count);
    s.append(" proposals=");
    push_decimal(&mut s, r.proposal_depth);
    s.append(" incidents=");
    push_decimal(&mut s, r.incident_count);
    s.append(" vetoes=");
    push_decimal(&mut s, r.veto_count);
    s.append(" approved=");
    push_decimal(&mut s, t.approvals);
    s.append(" denied=");
    push_decimal(&mut s, t.denials);
    s.append(" mutations=");
    push_decimal(&mut s, t.successful_mutations);
    s.append(" failed_muts=");
    push_decimal(&mut s, t.failed_mutations);
    s.append(" rollbacks=");
    push_decimal(&mut s, t.rollback_count);
    s.append(" recs=");
    push_decimal(&mut s, r.recommendation_count);
    s.append(" skipped=");
    push_decimal(&mut s, r.classifications_skipped);
    s.append(" tick=");
    push_decimal(&mut s, tick_ms);
    s.append("ms decision_latency=");
    push_decimal(&mut s, r.decision_ms);
    s.append("ms exec_latency=");
    push_decimal(&mut s, t.executor_total_ms);
    s.append("ms");
    s
}

/// The daemon's state during one tick.
#[derive(Debug)]
pub struct DaemonTick {
    tick: u64,
    trace_id: TraceId,
    stage: TickStage,
    proposals: Vec<Proposal>,
    decisions: Vec<Decision>,
    safe: Vec<ProposalId>,
    next: usize,
    tally: ExecutionTally,
    observation_count: u64,
    recommendation_count: u64,
    veto_total: u64,
    classifications_skipped: u64,
    incident_count: u64,
    decision_ms: u64,
    safety: SafetyCounts,
}

impl DaemonTick {
    pub closed spec fn tick_number(&self) -> u64 {
        self.tick
    }

    pub closed spec fn trace(&self) -> TraceId {
        self.trace_id
    }

    pub closed spec fn stage(&self) -> TickStage {
        self.stage
    }

    /// The tick's proposals, once collected.
    pub closed spec fn proposals(&self) -> Seq<Proposal> {
        self.proposals@
    }

    /// The tick's decisions, once evaluated.
    pub closed spec fn decisions(&self) -> Seq<Decision> {
        self.decisions@
    }

    /// The proposals whose decisions passed safety.
    pub closed spec fn safe(&self) -> Seq<ProposalId> {
        self.safe@
    }

    /// The position of the next decision to dispose of.
    pub closed spec fn cursor(&self) -> int {
        self.next as int
    }

    /// The number of decisions that have proposals (the two are paired in order).
    pub open spec fn pairs(&self) -> int {
        if self.proposals().len() < self.decisions().len() {
            self.proposals().len() as int
        } else {
            self.decisions().len() as int
        }
    }

    pub closed spec fn tally_view(&self) -> ExecutionTally {
        self.tally
    }

    /// The number of the tick's observations, once observed.
    pub closed spec fn observation_total(&self) -> u64 {
        self.observation_count
    }

    /// The classifier's count of classifications, once classified.
    pub closed spec fn classification_total(&self) -> u64 {
        self.recommendation_count
    }

    /// The number of vetoes traced, once governed.
    pub closed spec fn vetoes_traced(&self) -> u64 {
        self.veto_total
    }

    /// The number of the tick's incidents, once collected.
    pub closed spec fn incident_total(&self) -> nat {
        self.incident_count as nat
    }

    /// The milliseconds the policy evaluation took, once evaluated.
    pub closed spec fn decision_latency(&self) -> u64 {
        self.decision_ms
    }

    /// The classifier's count of skipped classifications, once classified.
    pub closed spec fn skipped(&self) -> u64 {
        self.classifications_skipped
    }

    pub closed spec fn safety_view(&self) -> SafetyCounts {
        self.safety
    }

    /// The dispositions of the tick's decisions, as far as they pair with proposals.
    pub open spec fn disposition_seq(&self) -> Seq<Disposition> {
        dispositions(self.decisions(), self.safe())
    }

    /// The cursor stays within the paired decisions; the denials are exactly those among
    /// the decisions disposed of; the other counts stay within them; while executing the
    /// cursor is at a decision to execute, and when reporting it is past the last pair.
    pub closed spec fn wf(&self) -> bool {
        let ds = dispositions(self.decisions@, self.safe@);
        &&& self.counts_wf()
        &&& self.stage == TickStage::Executing ==> {
            &&& (self.next as int) < self.pairs()
            &&& ds[self.next as int] == Disposition::Execute
        }
        &&& self.stage == TickStage::Reporting ==> self.next as int == self.pairs()
        &&& (self.stage == TickStage::Observing || self.stage == TickStage::Classifying
            || self.stage == TickStage::CollectingProposals) ==> self.proposals@.len() == 0
        &&& (self.stage != TickStage::Executing && self.stage != TickStage::Reporting) ==> self.next == 0
    }

    spec fn counts_wf(&self) -> bool {
        let ds = dispositions(self.decisions@, self.safe@);
        &&& self.next <= self.proposals@.len()
        &&& self.next <= self.decisions@.len()
        &&& self.tally.denials == denials_in(ds, 0, self.next as int)
        &&& self.tally.denials + self.tally.approvals <= self.next
        &&& self.tally.failed_mutations <= self.next
        &&& self.tally.successful_mutations <= self.tally.approvals
        &&& self.tally.rollback_count <= self.tally.successful_mutations
        &&& self.tally.cpu_weight_changes <= self.tally.successful_mutations
        &&& self.tally.cpu_max_changes <= self.tally.successful_mutations
        &&& self.tally.memory_max_changes <= self.tally.successful_mutations
    }

    /// A tick numbered `tick` in trace `trace_id`, about to observe.
    pub fn new(tick: u64, trace_id: TraceId) -> (t: Self)
        ensures
            t.tick_number() == tick,
            t.trace() == trace_id,
            t.stage() == TickStage::Observing,
            t.proposals().len() == 0,
            t.decisions().len() == 0,
            t.cursor() == 0,
            t.tally_view() == zero_tally(),
            t.wf(),
    {
        DaemonTick {
            tick,
            trace_id,
            stage: TickStage::Observing,
            proposals: Vec::new(),
            decisions: Vec::new(),
            safe: Vec::new(),
            next: 0,
            tally: ExecutionTally::new(),
            observation_count: 0,
            recommendation_count: 0,
            veto_total: 0,
            classifications_skipped: 0,
            incident_count: 0,
            decision_ms: 0,
            safety: SafetyCounts { veto_count: 0, safety_escalations: 0, freeze_ticks: 0, selective_vetoes: 0, global_vetoes: 0 },
        }
    }

    /// Publishes the error `what` + the text of `e` and abandons the tick.
    fn abandon(&mut self, what: &str, e: &AppError, ids: &mut IdSource) -> (out: TickOutput)
        ensures
            abandons_with(out, old(self).trace_id, what@ + app_error_text(*e), *old(ids), *final(ids)),
            *final(self) == (DaemonTick { stage: TickStage::Abandoned, next: 0, ..*old(self) }),
    {
        let description = concat2(what, e.to_message().as_str());
        let envelope = error_envelope(&self.trace_id, description.as_str(), ids);
        let mut publish: Vec<EventEnvelope> = Vec::new();
        publish.push(envelope);
        self.stage = TickStage::Abandoned;
        self.next = 0;
        TickOutput { publish, traced: false, next: TickRequest::Abandon }
    }

    /// Hands over the observation: an error abandons the tick after publishing
    /// `observation failed: <error>`; otherwise each observation is published on its
    /// source's topic (see `observation_topic_text`), in order, and the workload is
    /// classified next.
    pub fn observed(&mut self, result: &Result<Vec<Observation>, AppError>, ids: &mut IdSource) -> (out: TickOutput)
        requires
            old(self).wf(),
            old(self).stage() == TickStage::Observing,
        ensures
            final(self).wf(),
            final(self).tick_number() == old(self).tick_number(),
            final(self).trace() == old(self).trace(),
            match result {
                Err(e) => {
                    &&& abandons_with(out, old(self).trace(), "observation failed: "@ + app_error_text(*e), *old(ids), *final(ids))
                    &&& final(self).stage() == TickStage::Abandoned
                },
                Ok(obs) => {
                    &&& out.publish@.len() == obs@.len()
                    &&& forall|k: int| 0 <= k < obs@.len() ==> {
                        &&& on_topic(#[trigger] out.publish@[k], old(self).trace(), observation_topic_text(obs@[k].source))
                        &&& out.publish@[k].payload == EventPayload::Observation(obs@[k])
                    }
                    &&& message_ids_from(out.publish@, old(ids).message)
                    &&& *final(ids) == after_messages(*old(ids), obs@.len())
                    &&& out.traced
                    &&& out.next is Classify
                    &&& final(self).stage() == TickStage::Classifying
                    &&& final(self).observation_total() == obs@.len()
                },
            },
    {
        match result {
            Err(e) => self.abandon("observation failed: ", e, ids),
            Ok(obs) => {
                let mut publish: Vec<EventEnvelope> = Vec::new();
                let ghost ids0 = *ids;
                let mut k: usize = 0;
                while k < obs.len()
                    invariant
                        k <= obs@.len(),
                        publish@.len() == k,
                        forall|j: int| 0 <= j < k ==> {
                            &&& on_topic(#[trigger] publish@[j], self.trace_id, observation_topic_text(obs@[j].source))
                            &&& publish@[j].payload == EventPayload::Observation(obs@[j])
                        },
                        message_ids_from(publish@, ids0.message),
                        *ids == after_messages(ids0, k as nat),
                    decreases obs.len() - k,
                {
                    let e = observation_envelope(&obs[k], &self.trace_id, ids);
                    publish.push(e);
                    k = k + 1;
                }
                self.observation_count = obs.len() as u64;
                self.stage = TickStage::Classifying;
                TickOutput { publish, traced: true, next: TickRequest::Classify }
            },
        }
    }

    /// Hands over the workload classification `rec` of classifier `classifier`, with the
    /// classifier's counts of classifications and of skipped ones: `rec` is published on
    /// `recommendations.<classifier>` and the agents' proposals are collected next.
    pub fn classified(
        &mut self,
        rec: Recommendation,
        classifier: &AgentId,
        classifications: u64,
        skipped: u64,
        ids: &mut IdSource,
    ) -> (out: TickOutput)
        requires
            old(self).wf(),
            old(self).stage() == TickStage::Classifying,
        ensures
            final(self).wf(),
            final(self).tick_number() == old(self).tick_number(),
            final(self).trace() == old(self).trace(),
            final(self).stage() == TickStage::CollectingProposals,
            final(self).skipped() == skipped,
            final(self).classification_total() == classifications,
            final(self).observation_total() == old(self).observation_total(),
            out.publish@.len() == 1,
            on_topic(out.publish@[0], old(self).trace(), stream_name("recommendations"@, classifier@)),
            out.publish@[0].payload == EventPayload::Recommendation(rec),
            message_ids_from(out.publish@, old(ids).message),
            *final(ids) == after_messages(*old(ids), 1),
            out.traced,
            out.next is CollectProposals,
    {
        let topic = stream_topic("recommendations", classifier.as_str());
        let e = EventEnvelope::new(topic, self.trace_id.clone(), EventPayload::Recommendation(rec), ids);
        let mut publish: Vec<EventEnvelope> = Vec::new();
        publish.push(e);
        self.classifications_skipped = skipped;
        self.recommendation_count = classifications;
        self.stage = TickStage::CollectingProposals;
        TickOutput { publish, traced: true, next: TickRequest::CollectProposals }
    }
    /// Hands over the agents' proposals: an error abandons the tick after publishing
    /// `proposal collection failed: <error>`; otherwise the proposals are kept for the tick,
    /// each is published on `proposals.<agent>`, in order, and incidents are collected next.
    pub fn proposals_collected(&mut self, result: Result<Vec<Proposal>, AppError>, ids: &mut IdSource) -> (out: TickOutput)
        requires
            old(self).wf(),
            old(self).stage() == TickStage::CollectingProposals,
        ensures
            final(self).wf(),
            final(self).tick_number() == old(self).tick_number(),
            final(self).trace() == old(self).trace(),
            match result {
                Err(e) => {
                    &&& abandons_with(out, old(self).trace(), "proposal collection failed: "@ + app_error_text(e), *old(ids), *final(ids))
                    &&& final(self).stage() == TickStage::Abandoned
                },
                Ok(ps) => {
                    &&& final(self).proposals() == ps@
                    &&& final(self).skipped() == old(self).skipped()
                    &&& final(self).observation_total() == old(self).observation_total()
                    &&& final(self).classification_total() == old(self).classification_total()
                    &&& final(self).vetoes_traced() == old(self).vetoes_traced()
                    &&& out.publish@.len() == ps@.len()
                    &&& forall|k: int| 0 <= k < ps@.len() ==> {
                        &&& on_topic(#[trigger] out.publish@[k], old(self).trace(), stream_name("proposals"@, ps@[k].agent_id@))
                        &&& payload_copy(out.publish@[k].payload, EventPayload::Proposal(ps@[k]))
                    }
                    &&& message_ids_from(out.publish@, old(ids).message)
                    &&& *final(ids) == after_messages(*old(ids), ps@.len())
                    &&& out.traced
                    &&& out.next is CollectIncidents
                    &&& final(self).stage() == TickStage::CollectingIncidents
                },
            },
    {
        match result {
            Err(e) => self.abandon("proposal collection failed: ", &e, ids),
            Ok(ps) => {
                let mut publish: Vec<EventEnvelope> = Vec::new();
                let ghost ids0 = *ids;
                let mut k: usize = 0;
                while k < ps.len()
                    invariant
                        k <= ps@.len(),
                        publish@.len() == k,
                        forall|j: int| 0 <= j < k ==> {
                            &&& on_topic(#[trigger] publish@[j], self.trace_id, stream_name("proposals"@, ps@[j].agent_id@))
                            &&& payload_copy(publish@[j].payload, EventPayload::Proposal(ps@[j]))
                        },
                        message_ids_from(publish@, ids0.message),
                        *ids == after_messages(ids0, k as nat),
                    decreases ps.len() - k,
                {
                    let topic = stream_topic("proposals", ps[k].agent_id.as_str());
                    let e = EventEnvelope::new(topic, self.trace_id.clone(), EventPayload::Proposal(ps[k].clone()), ids);
                    publish.push(e);
                    k = k + 1;
                }
                self.proposals = ps;
                self.stage = TickStage::CollectingIncidents;
                TickOutput { publish, traced: true, next: TickRequest::CollectIncidents }
            },
        }
    }

    /// Hands over the agents' incidents: an error abandons the tick after publishing
    /// `incident collection failed: <error>`; otherwise each incident is published on
    /// `incidents.<category>` (see `category_label`), in order, and policy is evaluated next.
    pub fn incidents_collected(&mut self, result: &Result<Vec<Incident>, AppError>, ids: &mut IdSource) -> (out: TickOutput)
        requires
            old(self).wf(),
            old(self).stage() == TickStage::CollectingIncidents,
        ensures
            final(self).wf(),
            final(self).tick_number() == old(self).tick_number(),
            final(self).trace() == old(self).trace(),
            match result {
                Err(e) => {
                    &&& abandons_with(out, old(self).trace(), "incident collection failed: "@ + app_error_text(*e), *old(ids), *final(ids))
                    &&& final(self).stage() == TickStage::Abandoned
                },
                Ok(incidents) => {
                    &&& final(self).proposals() == old(self).proposals()
                    &&& final(self).skipped() == old(self).skipped()
                    &&& final(self).observation_total() == old(self).observation_total()
                    &&& final(self).classification_total() == old(self).classification_total()
                    &&& final(self).vetoes_traced() == old(self).vetoes_traced()
                    &&& final(self).incident_total() == incidents@.len()
                    &&& out.publish@.len() == incidents@.len()
                    &&& forall|k: int| 0 <= k < incidents@.len() ==> {
                        &&& on_topic(#[trigger] out.publish@[k], old(self).trace(), stream_name("incidents"@, category_label(incidents@[k].category)))
                        &&& out.publish@[k].payload == EventPayload::Incident(incidents@[k])
                    }
                    &&& message_ids_from(out.publish@, old(ids).message)
                    &&& *final(ids) == after_messages(*old(ids), incidents@.len())
                    &&& out.traced
                    &&& out.next is EvaluatePolicy
                    &&& final(self).stage() == TickStage::Evaluating
                },
            },
    {
        match result {
            Err(e) => self.abandon("incident collection failed: ", e, ids),
            Ok(incidents) => {
                let publish = incident_envelopes(incidents, &self.trace_id, ids);
                self.incident_count = incidents.len() as u64;
                self.stage = TickStage::Evaluating;
                TickOutput { publish, traced: true, next: TickRequest::EvaluatePolicy }
            },
        }
    }

    /// Hands over the policy kernel's decisions on the tick's proposals, evaluated in
    /// `decision_ms` milliseconds: an error abandons the tick after publishing
    /// `policy evaluation failed: <error>`; otherwise the decisions are kept, each decision
    /// that pairs with a proposal (the two in order, as far as both go) is published on
    /// `decisions.<agent of the proposal>`, and the safety governor is consulted next.
    #[verifier::spinoff_prover]
    pub fn evaluated(&mut self, result: Result<Vec<Decision>, AppError>, decision_ms: u64, ids: &mut IdSource) -> (out: TickOutput)
        requires
            old(self).wf(),
            old(self).stage() == TickStage::Evaluating,
        ensures
            final(self).wf(),
            final(self).tick_number() == old(self).tick_number(),
            final(self).trace() == old(self).trace(),
            match result {
                Err(e) => {
                    &&& abandons_with(out, old(self).trace(), "policy evaluation failed: "@ + app_error_text(e), *old(ids), *final(ids))
                    &&& final(self).stage() == TickStage::Abandoned
                },
                Ok(ds) => {
                    &&& final(self).proposals() == old(self).proposals()
                    &&& final(self).decisions() == ds@
                    &&& final(self).skipped() == old(self).skipped()
                    &&& final(self).observation_total() == old(self).observation_total()
                    &&& final(self).classification_total() == old(self).classification_total()
                    &&& final(self).vetoes_traced() == old(self).vetoes_traced()
                    &&& final(self).incident_total() == old(self).incident_total()
                    &&& final(self).decision_latency() == decision_ms
                    &&& out.publish@.len() == final(self).pairs()
                    &&& forall|k: int| 0 <= k < final(self).pairs() ==> {
                        &&& on_topic(#[trigger] out.publish@[k], old(self).trace(), stream_name("decisions"@, old(self).proposals()[k].agent_id@))
                        &&& out.publish@[k].payload == EventPayload::Decision(ds@[k])
                    }
                    &&& message_ids_from(out.publish@, old(ids).message)
                    &&& *final(ids) == after_messages(*old(ids), final(self).pairs() as nat)
                    &&& out.traced
                    &&& out.next is Govern
                    &&& final(self).stage() == TickStage::Governing
                },
            },
    {
        match result {
            Err(e) => self.abandon("policy evaluation failed: ", &e, ids),
            Ok(ds) => {
                let n: usize = if self.proposals.len() < ds.len() { self.proposals.len() } else { ds.len() };
                let mut publish: Vec<EventEnvelope> = Vec::new();
                let ghost ids0 = *ids;
                let mut k: usize = 0;
                while k < n
                    invariant
                        n <= self.proposals@.len(),
                        n <= ds@.len(),
                        k <= n,
                        publish@.len() == k,
                        forall|j: int| 0 <= j < k ==> {
                            &&& on_topic(#[trigger] publish@[j], self.trace_id, stream_name("decisions"@, self.proposals@[j].agent_id@))
                            &&& publish@[j].payload == EventPayload::Decision(ds@[j])
                        },
                        message_ids_from(publish@, ids0.message),
                        *ids == after_messages(ids0, k as nat),
                    decreases n - k,
                {
                    let topic = stream_topic("decisions", self.proposals[k].agent_id.as_str());
                    let e = EventEnvelope::new(topic, self.trace_id.clone(), EventPayload::Decision(ds[k].clone()), ids);
                    publish.push(e);
                    k = k + 1;
                }
                self.decisions = ds;
                self.decision_ms = decision_ms;
                self.stage = TickStage::Governing;
                TickOutput { publish, traced: true, next: TickRequest::Govern }
            },
        }
    }

    /// Hands over the safety governor's answer: an error abandons the tick after
    /// publishing `safety governor failed: <error>`; otherwise each veto is traced on
    /// `vetoes.<reason>` (see `veto_text`), then each escalation is published on
    /// `incidents.<category>`, and the decisions are disposed of in order (see
    /// `disposition_of`): vetoed ones are passed over, denied ones and those awaiting
    /// approval are counted as denials, up to the first to execute.
    #[verifier::spinoff_prover]
    pub fn governed(&mut self, result: Result<SafetyVerdict, AppError>, ids: &mut IdSource) -> (out: TickOutput)
        requires
            old(self).wf(),
            old(self).stage() == TickStage::Governing,
        ensures
            final(self).wf(),
            final(self).tick_number() == old(self).tick_number(),
            final(self).trace() == old(self).trace(),
            match result {
                Err(e) => {
                    &&& abandons_with(out, old(self).trace(), "safety governor failed: "@ + app_error_text(e), *old(ids), *final(ids))
                    &&& final(self).stage() == TickStage::Abandoned
                },
                Ok(v) => {
                    let nv = v.vetoes@.len();
                    let ne = v.escalations@.len();
                    let ds = dispositions(old(self).decisions(), v.approved@);
                    let n = old(self).pairs();
                    let j = next_execution(ds, n, 0);
                    &&& final(self).proposals() == old(self).proposals()
                    &&& final(self).decisions() == old(self).decisions()
                    &&& final(self).safe() == v.approved@
                    &&& final(self).safety_view() == v.counts
                    &&& final(self).vetoes_traced() == nv
                    &&& final(self).skipped() == old(self).skipped()
                    &&& final(self).observation_total() == old(self).observation_total()
                    &&& final(self).classification_total() == old(self).classification_total()
                    &&& final(self).incident_total() == old(self).incident_total()
                    &&& final(self).decision_latency() == old(self).decision_latency()
                    &&& out.publish@.len() == nv + ne
                    &&& forall|k: int| 0 <= k < nv ==> is_veto_envelope(#[trigger] out.publish@[k], old(self).trace(), v.vetoes@[k])
                    &&& forall|k: int| 0 <= k < ne ==> {
                        &&& on_topic(#[trigger] out.publish@[nv + k], old(self).trace(), stream_name("incidents"@, category_label(v.escalations@[k].category)))
                        &&& out.publish@[nv + k].payload == EventPayload::Incident(v.escalations@[k])
                    }
                    &&& message_ids_from(out.publish@, old(ids).message)
                    &&& *final(ids) == after_messages(*old(ids), nv + ne)
                    &&& out.traced
                    &&& final(self).cursor() == j
                    &&& final(self).tally_view() == (ExecutionTally { denials: denials_in(ds, 0, j) as u64, ..old(self).tally_view() })
                    &&& continues_at(out.next, old(self).proposals(), old(self).decisions(), j, n)
                    &&& final(self).stage() == stage_at(j, n)
                },
            },
    {
        match result {
            Err(e) => self.abandon("safety governor failed: ", &e, ids),
            Ok(v) => {
                let SafetyVerdict { approved, vetoes, escalations, counts } = v;
                let mut publish: Vec<EventEnvelope> = Vec::new();
                let ghost ids0 = *ids;
                let mut k: usize = 0;
                while k < vetoes.len()
                    invariant
                        k <= vetoes@.len(),
                        publish@.len() == k,
                        forall|j: int| 0 <= j < k ==> is_veto_envelope(#[trigger] publish@[j], self.trace_id, vetoes@[j]),
                        message_ids_from(publish@, ids0.message),
                        *ids == after_messages(ids0, k as nat),
                    decreases vetoes.len() - k,
                {
                    let e = veto_envelope(&vetoes[k], &self.trace_id, ids);
                    publish.push(e);
                    k = k + 1;
                }
                let nv = vetoes.len();
                let mut k: usize = 0;
                while k < escalations.len()
                    invariant
                        nv == vetoes@.len(),
                        k <= escalations@.len(),
                        publish@.len() == nv + k,
                        forall|j: int| 0 <= j < nv ==> is_veto_envelope(#[trigger] publish@[j], self.trace_id, vetoes@[j]),
                        forall|j: int| 0 <= j < k ==> {
                            &&& on_topic(#[trigger] publish@[nv + j], self.trace_id, stream_name("incidents"@, category_label(escalations@[j].category)))
                            &&& publish@[nv + j].payload == EventPayload::Incident(escalations@[j])
                        },
                        message_ids_from(publish@, ids0.message),
                        *ids == after_messages(ids0, (nv + k) as nat),
                    decreases escalations.len() - k,
                {
                    let topic = stream_topic("incidents", escalations[k].category.description());
                    let e = EventEnvelope::new(topic, self.trace_id.clone(), EventPayload::Incident(escalations[k].clone()), ids);
                    publish.push(e);
                    k = k + 1;
                }
                self.safe = approved;
                self.safety = counts;
                self.veto_total = nv as u64;
                proof {
                    assert(denials_in(dispositions(self.decisions@, self.safe@), 0, 0) == 0);
                }
                let next = self.advance();
                TickOutput { publish, traced: true, next }
            },
        }
    }

    /// Hands over the outcome of executing the action of the decision at the cursor,
    /// which took `exec_ms` milliseconds. A result is counted (see `after_execution`) and
    /// published on `results.<agent of the proposal>`; an error is published as the daemon
    /// error `execution failed: <error>` and counted as a failed mutation. Either way the
    /// remaining decisions are disposed of as in `governed`.
    #[verifier::spinoff_prover]
    pub fn executed(&mut self, result: Result<ActionResult, AppError>, exec_ms: u64, ids: &mut IdSource) -> (out: TickOutput)
        requires
            old(self).wf(),
            old(self).stage() == TickStage::Executing,
            old(self).tally_view().executor_total_ms + exec_ms <= u64::MAX,
        ensures
            ({
                let c = old(self).cursor();
                let p = old(self).proposals()[c];
                let ds = old(self).disposition_seq();
                let n = old(self).pairs();
                let j = next_execution(ds, n, c + 1);
                let t0 = old(self).tally_view();
                &&& final(self).wf()
                &&& final(self).tick_number() == old(self).tick_number()
                &&& final(self).trace() == old(self).trace()
                &&& final(self).proposals() == old(self).proposals()
                &&& final(self).decisions() == old(self).decisions()
                &&& final(self).safe() == old(self).safe()
                &&& final(self).safety_view() == old(self).safety_view()
                &&& final(self).skipped() == old(self).skipped()
                &&& final(self).observation_total() == old(self).observation_total()
                &&& final(self).classification_total() == old(self).classification_total()
                &&& final(self).vetoes_traced() == old(self).vetoes_traced()
                &&& final(self).incident_total() == old(self).incident_total()
                &&& final(self).decision_latency() == old(self).decision_latency()
                &&& out.publish@.len() == 1
                &&& match result {
                    Ok(r) => {
                        &&& on_topic(out.publish@[0], old(self).trace(), stream_name("results"@, p.agent_id@))
                        &&& out.publish@[0].payload == EventPayload::ActionResult(r)
                        &&& message_ids_from(out.publish@, old(ids).message)
                        &&& *final(ids) == after_messages(*old(ids), 1)
                        &&& out.traced
                        &&& final(self).tally_view() == (ExecutionTally {
                            denials: denials_in(ds, 0, j) as u64,
                            ..after_execution(t0, p.requested_action.kind, r, exec_ms)
                        })
                    },
                    Err(e) => {
                        &&& is_error_envelope(out.publish@[0], old(self).trace(), "execution failed: "@ + app_error_text(e), old(ids).incident, old(ids).message)
                        &&& *final(ids) == (IdSource {
                            incident: next_sequence(old(ids).incident),
                            message: next_sequence(old(ids).message),
                            ..*old(ids)
                        })
                        &&& !out.traced
                        &&& final(self).tally_view() == (ExecutionTally {
                            denials: denials_in(ds, 0, j) as u64,
                            failed_mutations: (t0.failed_mutations + 1) as u64,
                            ..t0
                        })
                    },
                }
                &&& final(self).cursor() == j
                &&& continues_at(out.next, old(self).proposals(), old(self).decisions(), j, n)
                &&& final(self).stage() == stage_at(j, n)
            }),
    {
        let c = self.next;
        let ghost ds = dispositions(self.decisions@, self.safe@);
        let np = self.proposals.len();
        proof {
            assert((c as int) < self.pairs());
            assert(usize::MAX <= u64::MAX);
        }
        let mut publish: Vec<EventEnvelope> = Vec::new();
        let traced = match result {
            Ok(r) => {
                self.tally.record_execution(&self.proposals[c].requested_action.kind, &r, exec_ms);
                let topic = stream_topic("results", self.proposals[c].agent_id.as_str());
                let e = EventEnvelope::new(topic, self.trace_id.clone(), EventPayload::ActionResult(r), ids);
                publish.push(e);
                true
            },
            Err(e) => {
                let description = concat2("execution failed: ", e.to_message().as_str());
                let envelope = error_envelope(&self.trace_id, description.as_str(), ids);
                publish.push(envelope);
                self.tally.record_execution_error();
                false
            },
        };
        assert(denials_in(ds, 0, c + 1) == denials_in(ds, 0, c as int));
        self.next = c + 1;
        let next = self.advance();
        TickOutput { publish, traced, next }
    }

    /// The counts of a completed tick, for its metrics (see `TickReport`). The denials
    /// are exactly the paired decisions that policy denied or left awaiting approval and
    /// that passed safety.
    pub fn report(&self) -> (r: TickReport)
        requires
            self.wf(),
            self.stage() == TickStage::Reporting,
        ensures
            r.obs_count == self.observation_total(),
            r.recommendation_count == self.classification_total(),
            r.veto_count == self.vetoes_traced(),
            r.proposal_depth == self.proposals().len(),
            r.incident_count == self.incident_total(),
            r.decision_ms == self.decision_latency(),
            r.tally == self.tally_view(),
            r.safety == self.safety_view(),
            r.classifications_skipped == self.skipped(),
            r.tally.denials == denials_in(self.disposition_seq(), 0, self.pairs()),
    {
        TickReport {
            obs_count: self.observation_count,
            recommendation_count: self.recommendation_count,
            veto_count: self.veto_total,
            proposal_depth: self.proposals.len() as u64,
            incident_count: self.incident_count,
            decision_ms: self.decision_ms,
            tally: self.tally,
            safety: self.safety,
            classifications_skipped: self.classifications_skipped,
        }
    }

    /// The tick's proposals, once collected.
    pub fn collected_proposals(&self) -> (ps: &[Proposal])
        ensures
            ps@ == self.proposals(),
    {
        self.proposals.as_slice()
    }

    /// The tick's decisions, once evaluated.
    pub fn collected_decisions(&self) -> (ds: &[Decision])
        ensures
            ds@ == self.decisions(),
    {
        self.decisions.as_slice()
    }

    /// The counts of the tick's executions so far.
    pub fn tally(&self) -> (t: ExecutionTally)
        ensures
            t == self.tally_view(),
    {
        self.tally
    }

    /// The number of the tick.
    pub fn number(&self) -> (n: u64)
        ensures
            n == self.tick_number(),
    {
        self.tick
    }

    /// Where the tick stands.
    pub fn current_stage(&self) -> (s: TickStage)
        ensures
            s == self.stage(),
    {
        self.stage
    }

    /// Disposes of the decisions from the cursor on, counting denials, up to the next
    /// decision to execute or past the last pair.
    fn advance(&mut self) -> (next: TickRequest)
        requires
            old(self).counts_wf(),
            old(self).next as int <= old(self).pairs(),
        ensures
            ({
                let ds = dispositions(old(self).decisions@, old(self).safe@);
                let n = old(self).pairs();
                let j = next_execution(ds, n, old(self).next as int);
                &&& final(self).wf()
                &&& final(self).next as int == j
                &&& *final(self) == (DaemonTick {
                    next: final(self).next,
                    stage: stage_at(j, n),
                    tally: ExecutionTally { denials: denials_in(ds, 0, j) as u64, ..old(self).tally },
                    ..*old(self)
                })
                &&& continues_at(next, old(self).proposals@, old(self).decisions@, j, n)
            }),
    {
        let n: usize = if self.proposals.len() < self.decisions.len() { self.proposals.len() } else { self.decisions.len() };
        let ghost ds = dispositions(self.decisions@, self.safe@);
        let ghost j0 = next_execution(ds, n as int, self.next as int);
        let mut i: usize = self.next;
        let mut tally = self.tally;
        let mut found = false;
        while !found && i < n
            invariant
                n as int == self.pairs(),
                n <= self.proposals@.len(),
                n <= self.decisions@.len(),
                ds == dispositions(self.decisions@, self.safe@),
                self.next <= i <= n,
                found ==> i < n && ds[i as int] == Disposition::Execute,
                next_execution(ds, n as int, i as int) == j0,
                tally.denials == denials_in(ds, 0, i as int),
                tally == (ExecutionTally { denials: tally.denials, ..self.tally }),
                tally.denials + tally.approvals <= i,
                self.counts_wf(),
            decreases n - i + if found { 0int } else { 1int },
        {
            let d = disposition(&self.decisions[i], self.safe.as_slice());
            assert(ds[i as int] == d);
            match d {
                Disposition::Execute => {
                    found = true;
                },
                Disposition::Deny => {
                    assert(denials_in(ds, 0, i + 1) == denials_in(ds, 0, i as int) + 1);
                    tally.record_denial();
                    i = i + 1;
                },
                Disposition::SafetyVetoed => {
                    assert(denials_in(ds, 0, i + 1) == denials_in(ds, 0, i as int));
                    i = i + 1;
                },
            }
        }
        self.next = i;
        self.tally = tally;
        assert(next_execution(ds, n as int, i as int) == i);
        assert(self.counts_wf());
        if i < n {
            self.stage = TickStage::Executing;
            TickRequest::Execute(ApprovedAction {
                request: self.proposals[i].requested_action.clone(),
                decision_id: self.decisions[i].id.clone(),
            })
        } else {
            self.stage = TickStage::Reporting;
            TickRequest::Report
        }
    }
}

/// The envelope that traces the veto `v` (see `is_veto_envelope`).
fn veto_envelope(v: &VetoNote, trace_id: &TraceId, ids: &mut IdSource) -> (e: EventEnvelope)
    ensures
        is_veto_envelope(e, *trace_id, *v),
        e.id@ == "MessageId-"@ + decimal(old(ids).message as nat),
        *final(ids) == (IdSource { message: next_sequence(old(ids).message), ..*old(ids) }),
{
    let mut message = "veto proposal=".to_owned();
    message.append(v.proposal_id.as_str());
    message.append(" reason=");
    message.append(v.reason_debug.as_str());
    message.append(" explanation=");
    message.append(v.explanation.as_str());
    let topic = stream_topic("vetoes", v.reason_label.as_str());
    EventEnvelope::new(topic, trace_id.clone(), EventPayload::Trace(TraceEvent { message }), ids)
}

/// The envelopes that publish `incidents`, each on `incidents.<category>`, in order.
fn incident_envelopes(incidents: &Vec<Incident>, trace_id: &TraceId, ids: &mut IdSource) -> (publish: Vec<EventEnvelope>)
    ensures
        publish@.len() == incidents@.len(),
        forall|k: int| 0 <= k < incidents@.len() ==> {
            &&& on_topic(#[trigger] publish@[k], *trace_id, stream_name("incidents"@, category_label(incidents@[k].category)))
            &&& publish@[k].payload == EventPayload::Incident(incidents@[k])
        },
        message_ids_from(publish@, old(ids).message),
        *final(ids) == after_messages(*old(ids), incidents@.len()),
{
    let mut publish: Vec<EventEnvelope> = Vec::new();
    let ghost ids0 = *ids;
    let mut k: usize = 0;
    while k < incidents.len()
        invariant
            k <= incidents@.len(),
            publish@.len() == k,
            forall|j: int| 0 <= j < k ==> {
                &&& on_topic(#[trigger] publish@[j], *trace_id, stream_name("incidents"@, category_label(incidents@[j].category)))
                &&& publish@[j].payload == EventPayload::Incident(incidents@[j])
            },
            message_ids_from(publish@, ids0.message),
            *ids == after_messages(ids0, k as nat),
        decreases incidents.len() - k,
    {
        let topic = stream_topic("incidents", incidents[k].category.description());
        let e = EventEnvelope::new(topic, trace_id.clone(), EventPayload::Incident(incidents[k].clone()), ids);
        publish.push(e);
        k = k + 1;
    }
    publish
}

/// The next decision to execute is one at or after `i` whose disposition is `Execute`,
/// and every decision passed over on the way is not.
pub proof fn lemma_next_execution(ds: Seq<Disposition>, n: int, i: int)
    requires
        0 <= i <= n <= ds.len(),
    ensures
        i <= next_execution(ds, n, i) <= n,
        next_execution(ds, n, i) < n ==> ds[next_execution(ds, n, i)] == Disposition::Execute,
        forall|k: int| i <= k < next_execution(ds, n, i) ==> ds[k] != Disposition::Execute,
    decreases n - i,
{
    if i < n && ds[i] != Disposition::Execute {
        lemma_next_execution(ds, n, i + 1);
    }
}

/// The daemon executes an action only under a decision that policy approved and whose
/// proposal passed the safety governor, and it passes over no such decision: from any
/// position, the next decision executed is approved and safe, and no decision before it
/// is both.
pub proof fn lemma_executes_only_safe_approvals(decisions: Seq<Decision>, safe: Seq<ProposalId>, n: int, i: int)
    requires
        0 <= i <= n <= decisions.len(),
    ensures
        ({
            let j = next_execution(dispositions(decisions, safe), n, i);
            &&& i <= j <= n
            &&& j < n ==> {
                &&& decisions[j].outcome is Approved
                &&& exists|k: int| 0 <= k < safe.len() && #[trigger] safe[k]@ == decisions[j].proposal_id@
            }
            &&& forall|m: int| i <= m < j ==> !({
                &&& (#[trigger] decisions[m]).outcome is Approved
                &&& exists|k: int| 0 <= k < safe.len() && #[trigger] safe[k]@ == decisions[m].proposal_id@
            })
        }),
{
    let ds = dispositions(decisions, safe);
    lemma_next_execution(ds, n, i);
    let j = next_execution(ds, n, i);
    if j < n {
        assert(ds[j] == disposition_of(decisions[j], safe));
    }
    assert forall|m: int| i <= m < j implies !({
        &&& (#[trigger] decisions[m]).outcome is Approved
        &&& exists|k: int| 0 <= k < safe.len() && #[trigger] safe[k]@ == decisions[m].proposal_id@
    }) by {
        assert(ds[m] == disposition_of(decisions[m], safe));
    }
}

} // verus!
