//! Identifier types. Every identifier is a string newtype; fresh identifiers are
//! rendered as `"<TypeName>-<n>"` from a per-type sequence number.
use vstd::prelude::*;
use vstd::std_specs::cmp::PartialEqSpecImpl;
use crate::text::{decimal, with_decimal};

verus! {

/// The successor of a sequence number, wrapping to zero past `u64::MAX`
/// (the behaviour of an atomic `fetch_add(1)`).
pub open spec fn next_sequence(n: u64) -> u64 {
    if n == u64::MAX { 0 } else { (n + 1) as u64 }
}

/// The sequence number after `n` identifiers were drawn starting at `start`.
pub open spec fn sequence_after(start: u64, n: nat) -> u64
    decreases n,
{
    if n == 0 { start } else { next_sequence(sequence_after(start, (n - 1) as nat)) }
}

/// After `n` draws the sequence number is `start + n`, wrapping modulo 2^64.
pub proof fn lemma_sequence_after_value(start: u64, n: nat)
    ensures
        sequence_after(start, n) == (start + n) % 0x1_0000_0000_0000_0000,
    decreases n,
{
    if n > 0 {
        lemma_sequence_after_value(start, (n - 1) as nat);
    }
}

/// Fewer than 2^64 draws from one sequence never repeat a number, so the identifiers
/// drawn from an `IdSource` are distinct.
pub proof fn lemma_sequence_distinct(start: u64, i: nat, j: nat)
    requires
        i < j < 0x1_0000_0000_0000_0000,
    ensures
        sequence_after(start, i) != sequence_after(start, j),
{
    lemma_sequence_after_value(start, i);
    lemma_sequence_after_value(start, j);
}

/// Identifiers rendered `"<prefix><n>"` from fewer than 2^64 draws of one sequence are
/// distinct.
pub proof fn lemma_fresh_ids_distinct(prefix: Seq<char>, start: u64, i: nat, j: nat)
    requires
        i < j < 0x1_0000_0000_0000_0000,
    ensures
        prefix + decimal(sequence_after(start, i) as nat) != prefix + decimal(sequence_after(start, j) as nat),
{
    lemma_sequence_distinct(start, i, j);
    crate::text::lemma_prefixed_decimal_injective(
        prefix,
        sequence_after(start, i) as nat,
        sequence_after(start, j) as nat,
    );
}

fn advance(n: u64) -> (r: u64)
    ensures
        r == next_sequence(n),
{
    if n == u64::MAX { 0 } else { n + 1 }
}

/// The source of fresh identifiers: one sequence per identifier type, each starting at 1.
#[derive(Clone, Copy, Debug)]
pub struct IdSource {
    pub action: u64,
    pub agent: u64,
    pub decision: u64,
    pub incident: u64,
    pub message: u64,
    pub observation: u64,
    pub proposal: u64,
    pub recommendation: u64,
    pub trace: u64,
    pub plan: u64,
    pub intent: u64,
}

impl IdSource {
    /// A source whose sequences all start at 1.
    pub fn new() -> (s: Self)
        ensures
            s.action == 1,
            s.agent == 1,
            s.decision == 1,
            s.incident == 1,
            s.message == 1,
            s.observation == 1,
            s.proposal == 1,
            s.recommendation == 1,
            s.trace == 1,
            s.plan == 1,
            s.intent == 1,
    {
        IdSource {
            action: 1,
            agent: 1,
            decision: 1,
            incident: 1,
            message: 1,
            observation: 1,
            proposal: 1,
            recommendation: 1,
            trace: 1,
            plan: 1,
            intent: 1,
        }
    }

    /// A fresh `ActionId`, `"ActionId-<n>"` where `n` is this source's `action` sequence number,
    /// which then advances.
    pub fn next_action_id(&mut self) -> (id: ActionId)
        ensures
            id@ == "ActionId-"@ + decimal(old(self).action as nat),
            *final(self) == (IdSource { action: next_sequence(old(self).action), ..*old(self) }),
    {
        let id = ActionId::with_sequence(self.action);
        self.action = advance(self.action);
        id
    }

    /// A fresh `AgentId`, `"AgentId-<n>"` where `n` is this source's `agent` sequence number,
    /// which then advances.
    pub fn next_agent_id(&mut self) -> (id: AgentId)
        ensures
            id@ == "AgentId-"@ + decimal(old(self).agent as nat),
            *final(self) == (IdSource { agent: next_sequence(old(self).agent), ..*old(self) }),
    {
        let id = AgentId::with_sequence(self.agent);
        self.agent = advance(self.agent);
        id
    }

    /// A fresh `DecisionId`, `"DecisionId-<n>"` where `n` is this source's `decision` sequence number,
    /// which then advances.
    pub fn next_decision_id(&mut self) -> (id: DecisionId)
        ensures
            id@ == "DecisionId-"@ + decimal(old(self).decision as nat),
            *final(self) == (IdSource { decision: next_sequence(old(self).decision), ..*old(self) }),
    {
        let id = DecisionId::with_sequence(self.decision);
        self.decision = advance(self.decision);
        id
    }

    /// A fresh `IncidentId`, `"IncidentId-<n>"` where `n` is this source's `incident` sequence number,
    /// which then advances.
    pub fn next_incident_id(&mut self) -> (id: IncidentId)
        ensures
            id@ == "IncidentId-"@ + decimal(old(self).incident as nat),
            *final(self) == (IdSource { incident: next_sequence(old(self).incident), ..*old(self) }),
    {
        let id = IncidentId::with_sequence(self.incident);
        self.incident = advance(self.incident);
        id
    }

    /// A fresh `MessageId`, `"MessageId-<n>"` where `n` is this source's `message` sequence number,
    /// which then advances.
    pub fn next_message_id(&mut self) -> (id: MessageId)
        ensures
            id@ == "MessageId-"@ + decimal(old(self).message as nat),
            *final(self) == (IdSource { message: next_sequence(old(self).message), ..*old(self) }),
    {
        let id = MessageId::with_sequence(self.message);
        self.message = advance(self.message);
        id
    }

    /// A fresh `ObservationId`, `"ObservationId-<n>"` where `n` is this source's `observation` sequence number,
    /// which then advances.
    pub fn next_observation_id(&mut self) -> (id: ObservationId)
        ensures
            id@ == "ObservationId-"@ + decimal(old(self).observation as nat),
            *final(self) == (IdSource { observation: next_sequence(old(self).observation), ..*old(self) }),
    {
        let id = ObservationId::with_sequence(self.observation);
        self.observation = advance(self.observation);
        id
    }

    /// A fresh `ProposalId`, `"ProposalId-<n>"` where `n` is this source's `proposal` sequence number,
    /// which then advances.
    pub fn next_proposal_id(&mut self) -> (id: ProposalId)
        ensures
            id@ == "ProposalId-"@ + decimal(old(self).proposal as nat),
            *final(self) == (IdSource { proposal: next_sequence(old(self).proposal), ..*old(self) }),
    {
        let id = ProposalId::with_sequence(self.proposal);
        self.proposal = advance(self.proposal);
        id
    }

    /// A fresh `RecommendationId`, `"RecommendationId-<n>"` where `n` is this source's `recommendation` sequence number,
    /// which then advances.
    pub fn next_recommendation_id(&mut self) -> (id: RecommendationId)
        ensures
            id@ == "RecommendationId-"@ + decimal(old(self).recommendation as nat),
            *final(self) == (IdSource { recommendation: next_sequence(old(self).recommendation), ..*old(self) }),
    {
        let id = RecommendationId::with_sequence(self.recommendation);
        self.recommendation = advance(self.recommendation);
        id
    }

    /// A fresh `TraceId`, `"TraceId-<n>"` where `n` is this source's `trace` sequence number,
    /// which then advances.
    pub fn next_trace_id(&mut self) -> (id: TraceId)
        ensures
            id@ == "TraceId-"@ + decimal(old(self).trace as nat),
            *final(self) == (IdSource { trace: next_sequence(old(self).trace), ..*old(self) }),
    {
        let id = TraceId::with_sequence(self.trace);
        self.trace = advance(self.trace);
        id
    }

    /// A fresh `PlanId`, `"PlanId-<n>"` where `n` is this source's `plan` sequence number,
    /// which then advances.
    pub fn next_plan_id(&mut self) -> (id: PlanId)
        ensures
            id@ == "PlanId-"@ + decimal(old(self).plan as nat),
            *final(self) == (IdSource { plan: next_sequence(old(self).plan), ..*old(self) }),
    {
        let id = PlanId::with_sequence(self.plan);
        self.plan = advance(self.plan);
        id
    }

    /// A fresh `IntentId`, `"IntentId-<n>"` where `n` is this source's `intent` sequence number,
    /// which then advances.
    pub fn next_intent_id(&mut self) -> (id: IntentId)
        ensures
            id@ == "IntentId-"@ + decimal(old(self).intent as nat),
            *final(self) == (IdSource { intent: next_sequence(old(self).intent), ..*old(self) }),
    {
        let id = IntentId::with_sequence(self.intent);
        self.intent = advance(self.intent);
        id
    }
}

/// Identifier of a action.
#[derive(Debug, Hash)]
pub struct ActionId(pub String);

impl Clone for ActionId {
    fn clone(&self) -> (r: Self)
        ensures
            r == *self,
    {
        ActionId(self.0.clone())
    }
}

impl View for ActionId {
    type V = Seq<char>;

    open spec fn view(&self) -> Seq<char> {
        self.0@
    }
}

impl ActionId {
    /// The identifier rendered from sequence number `n`: `"ActionId-<n>"`.
    pub fn with_sequence(n: u64) -> (id: Self)
        ensures
            id@ == "ActionId-"@ + decimal(n as nat),
    {
        ActionId(with_decimal("ActionId-", n))
    }

    /// Wraps an existing identifier string.
    pub fn from_string(value: &str) -> (id: Self)
        ensures
            id@ == value@,
    {
        ActionId(value.to_owned())
    }

    /// The identifier's text.
    pub fn as_str(&self) -> (s: &str)
        ensures
            s@ == self@,
    {
        self.0.as_str()
    }

    /// Whether both identifiers hold the same text.
    pub fn same_as(&self, other: &Self) -> (b: bool)
        ensures
            b == (self@ == other@),
    {
        self.0 == other.0
    }
}

impl PartialEq for ActionId {
    fn eq(&self, other: &Self) -> (b: bool) {
        self.0 == other.0
    }
}

impl PartialEqSpecImpl for ActionId {
    open spec fn obeys_eq_spec() -> bool {
        true
    }

    open spec fn eq_spec(&self, other: &Self) -> bool {
        self@ == other@
    }
}

impl Eq for ActionId {}

/// Identifier of a agent.
#[derive(Debug, Hash)]
pub struct AgentId(pub String);

impl Clone for AgentId {
    fn clone(&self) -> (r: Self)
        ensures
            r == *self,
    {
        AgentId(self.0.clone())
    }
}

impl View for AgentId {
    type V = Seq<char>;

    open spec fn view(&self) -> Seq<char> {
        self.0@
    }
}

impl AgentId {
    /// The identifier rendered from sequence number `n`: `"AgentId-<n>"`.
    pub fn with_sequence(n: u64) -> (id: Self)
        ensures
            id@ == "AgentId-"@ + decimal(n as nat),
    {
        AgentId(with_decimal("AgentId-", n))
    }

    /// Wraps an existing identifier string.
    pub fn from_string(value: &str) -> (id: Self)
        ensures
            id@ == value@,
    {
        AgentId(value.to_owned())
    }

    /// The identifier's text.
    pub fn as_str(&self) -> (s: &str)
        ensures
            s@ == self@,
    {
        self.0.as_str()
    }

    /// Whether both identifiers hold the same text.
    pub fn same_as(&self, other: &Self) -> (b: bool)
        ensures
            b == (self@ == other@),
    {
        self.0 == other.0
    }
}

impl PartialEq for AgentId {
    fn eq(&self, other: &Self) -> (b: bool) {
        self.0 == other.0
    }
}

impl PartialEqSpecImpl for AgentId {
    open spec fn obeys_eq_spec() -> bool {
        true
    }

    open spec fn eq_spec(&self, other: &Self) -> bool {
        self@ == other@
    }
}

impl Eq for AgentId {}

/// Identifier of a decision.
#[derive(Debug, Hash)]
pub struct DecisionId(pub String);

impl Clone for DecisionId {
    fn clone(&self) -> (r: Self)
        ensures
            r == *self,
    {
        DecisionId(self.0.clone())
    }
}

impl View for DecisionId {
    type V = Seq<char>;

    open spec fn view(&self) -> Seq<char> {
        self.0@
    }
}

impl DecisionId {
    /// The identifier rendered from sequence number `n`: `"DecisionId-<n>"`.
    pub fn with_sequence(n: u64) -> (id: Self)
        ensures
            id@ == "DecisionId-"@ + decimal(n as nat),
    {
        DecisionId(with_decimal("DecisionId-", n))
    }

    /// Wraps an existing identifier string.
    pub fn from_string(value: &str) -> (id: Self)
        ensures
            id@ == value@,
    {
        DecisionId(value.to_owned())
    }

    /// The identifier's text.
    pub fn as_str(&self) -> (s: &str)
        ensures
            s@ == self@,
    {
        self.0.as_str()
    }

    /// Whether both identifiers hold the same text.
    pub fn same_as(&self, other: &Self) -> (b: bool)
        ensures
            b == (self@ == other@),
    {
        self.0 == other.0
    }
}

impl PartialEq for DecisionId {
    fn eq(&self, other: &Self) -> (b: bool) {
        self.0 == other.0
    }
}

impl PartialEqSpecImpl for DecisionId {
    open spec fn obeys_eq_spec() -> bool {
        true
    }

    open spec fn eq_spec(&self, other: &Self) -> bool {
        self@ == other@
    }
}

impl Eq for DecisionId {}

/// Identifier of a incident.
#[derive(Debug, Hash)]
pub struct IncidentId(pub String);

impl Clone for IncidentId {
    fn clone(&self) -> (r: Self)
        ensures
            r == *self,
    {
        IncidentId(self.0.clone())
    }
}

impl View for IncidentId {
    type V = Seq<char>;

    open spec fn view(&self) -> Seq<char> {
        self.0@
    }
}

impl IncidentId {
    /// The identifier rendered from sequence number `n`: `"IncidentId-<n>"`.
    pub fn with_sequence(n: u64) -> (id: Self)
        ensures
            id@ == "IncidentId-"@ + decimal(n as nat),
    {
        IncidentId(with_decimal("IncidentId-", n))
    }

    /// Wraps an existing identifier string.
    pub fn from_string(value: &str) -> (id: Self)
        ensures
            id@ == value@,
    {
        IncidentId(value.to_owned())
    }

    /// The identifier's text.
    pub fn as_str(&self) -> (s: &str)
        ensures
            s@ == self@,
    {
        self.0.as_str()
    }

    /// Whether both identifiers hold the same text.
    pub fn same_as(&self, other: &Self) -> (b: bool)
        ensures
            b == (self@ == other@),
    {
        self.0 == other.0
    }
}

impl PartialEq for IncidentId {
    fn eq(&self, other: &Self) -> (b: bool) {
        self.0 == other.0
    }
}

impl PartialEqSpecImpl for IncidentId {
    open spec fn obeys_eq_spec() -> bool {
        true
    }

    open spec fn eq_spec(&self, other: &Self) -> bool {
        self@ == other@
    }
}

impl Eq for IncidentId {}

/// Identifier of a message.
#[derive(Debug, Hash)]
pub struct MessageId(pub String);

impl Clone for MessageId {
    fn clone(&self) -> (r: Self)
        ensures
            r == *self,
    {
        MessageId(self.0.clone())
    }
}

impl View for MessageId {
    type V = Seq<char>;

    open spec fn view(&self) -> Seq<char> {
        self.0@
    }
}

impl MessageId {
    /// The identifier rendered from sequence number `n`: `"MessageId-<n>"`.
    pub fn with_sequence(n: u64) -> (id: Self)
        ensures
            id@ == "MessageId-"@ + decimal(n as nat),
    {
        MessageId(with_decimal("MessageId-", n))
    }

    /// Wraps an existing identifier string.
    pub fn from_string(value: &str) -> (id: Self)
        ensures
            id@ == value@,
    {
        MessageId(value.to_owned())
    }

    /// The identifier's text.
    pub fn as_str(&self) -> (s: &str)
        ensures
            s@ == self@,
    {
        self.0.as_str()
    }

    /// Whether both identifiers hold the same text.
    pub fn same_as(&self, other: &Self) -> (b: bool)
        ensures
            b == (self@ == other@),
    {
        self.0 == other.0
    }
}

impl PartialEq for MessageId {
    fn eq(&self, other: &Self) -> (b: bool) {
        self.0 == other.0
    }
}

impl PartialEqSpecImpl for MessageId {
    open spec fn obeys_eq_spec() -> bool {
        true
    }

    open spec fn eq_spec(&self, other: &Self) -> bool {
        self@ == other@
    }
}

impl Eq for MessageId {}

/// Identifier of a observation.
#[derive(Debug, Hash)]
pub struct ObservationId(pub String);

impl Clone for ObservationId {
    fn clone(&self) -> (r: Self)
        ensures
            r == *self,
    {
        ObservationId(self.0.clone())
    }
}

impl View for ObservationId {
    type V = Seq<char>;

    open spec fn view(&self) -> Seq<char> {
        self.0@
    }
}

impl ObservationId {
    /// The identifier rendered from sequence number `n`: `"ObservationId-<n>"`.
    pub fn with_sequence(n: u64) -> (id: Self)
        ensures
            id@ == "ObservationId-"@ + decimal(n as nat),
    {
        ObservationId(with_decimal("ObservationId-", n))
    }

    /// Wraps an existing identifier string.
    pub fn from_string(value: &str) -> (id: Self)
        ensures
            id@ == value@,
    {
        ObservationId(value.to_owned())
    }

    /// The identifier's text.
    pub fn as_str(&self) -> (s: &str)
        ensures
            s@ == self@,
    {
        self.0.as_str()
    }

    /// Whether both identifiers hold the same text.
    pub fn same_as(&self, other: &Self) -> (b: bool)
        ensures
            b == (self@ == other@),
    {
        self.0 == other.0
    }
}

impl PartialEq for ObservationId {
    fn eq(&self, other: &Self) -> (b: bool) {
        self.0 == other.0
    }
}

impl PartialEqSpecImpl for ObservationId {
    open spec fn obeys_eq_spec() -> bool {
        true
    }

    open spec fn eq_spec(&self, other: &Self) -> bool {
        self@ == other@
    }
}

impl Eq for ObservationId {}

/// Identifier of a proposal.
#[derive(Debug, Hash)]
pub struct ProposalId(pub String);

impl Clone for ProposalId {
    fn clone(&self) -> (r: Self)
        ensures
            r == *self,
    {
        ProposalId(self.0.clone())
    }
}

impl View for ProposalId {
    type V = Seq<char>;

    open spec fn view(&self) -> Seq<char> {
        self.0@
    }
}

impl ProposalId {
    /// The identifier rendered from sequence number `n`: `"ProposalId-<n>"`.
    pub fn with_sequence(n: u64) -> (id: Self)
        ensures
            id@ == "ProposalId-"@ + decimal(n as nat),
    {
        ProposalId(with_decimal("ProposalId-", n))
    }

    /// Wraps an existing identifier string.
    pub fn from_string(value: &str) -> (id: Self)
        ensures
            id@ == value@,
    {
        ProposalId(value.to_owned())
    }

    /// The identifier's text.
    pub fn as_str(&self) -> (s: &str)
        ensures
            s@ == self@,
    {
        self.0.as_str()
    }

    /// Whether both identifiers hold the same text.
    pub fn same_as(&self, other: &Self) -> (b: bool)
        ensures
            b == (self@ == other@),
    {
        self.0 == other.0
    }
}

impl PartialEq for ProposalId {
    fn eq(&self, other: &Self) -> (b: bool) {
        self.0 == other.0
    }
}

impl PartialEqSpecImpl for ProposalId {
    open spec fn obeys_eq_spec() -> bool {
        true
    }

    open spec fn eq_spec(&self, other: &Self) -> bool {
        self@ == other@
    }
}

impl Eq for ProposalId {}

/// Identifier of a recommendation.
#[derive(Debug, Hash)]
pub struct RecommendationId(pub String);

impl Clone for RecommendationId {
    fn clone(&self) -> (r: Self)
        ensures
            r == *self,
    {
        RecommendationId(self.0.clone())
    }
}

impl View for RecommendationId {
    type V = Seq<char>;

    open spec fn view(&self) -> Seq<char> {
        self.0@
    }
}

impl RecommendationId {
    /// The identifier rendered from sequence number `n`: `"RecommendationId-<n>"`.
    pub fn with_sequence(n: u64) -> (id: Self)
        ensures
            id@ == "RecommendationId-"@ + decimal(n as nat),
    {
        RecommendationId(with_decimal("RecommendationId-", n))
    }

    /// Wraps an existing identifier string.
    pub fn from_string(value: &str) -> (id: Self)
        ensures
            id@ == value@,
    {
        RecommendationId(value.to_owned())
    }

    /// The identifier's text.
    pub fn as_str(&self) -> (s: &str)
        ensures
            s@ == self@,
    {
        self.0.as_str()
    }

    /// Whether both identifiers hold the same text.
    pub fn same_as(&self, other: &Self) -> (b: bool)
        ensures
            b == (self@ == other@),
    {
        self.0 == other.0
    }
}

impl PartialEq for RecommendationId {
    fn eq(&self, other: &Self) -> (b: bool) {
        self.0 == other.0
    }
}

impl PartialEqSpecImpl for RecommendationId {
    open spec fn obeys_eq_spec() -> bool {
        true
    }

    open spec fn eq_spec(&self, other: &Self) -> bool {
        self@ == other@
    }
}

impl Eq for RecommendationId {}

/// Identifier of a trace.
#[derive(Debug, Hash)]
pub struct TraceId(pub String);

impl Clone for TraceId {
    fn clone(&self) -> (r: Self)
        ensures
            r == *self,
    {
        TraceId(self.0.clone())
    }
}

impl View for TraceId {
    type V = Seq<char>;

    open spec fn view(&self) -> Seq<char> {
        self.0@
    }
}

impl TraceId {
    /// The identifier rendered from sequence number `n`: `"TraceId-<n>"`.
    pub fn with_sequence(n: u64) -> (id: Self)
        ensures
            id@ == "TraceId-"@ + decimal(n as nat),
    {
        TraceId(with_decimal("TraceId-", n))
    }

    /// Wraps an existing identifier string.
    pub fn from_string(value: &str) -> (id: Self)
        ensures
            id@ == value@,
    {
        TraceId(value.to_owned())
    }

    /// The identifier's text.
    pub fn as_str(&self) -> (s: &str)
        ensures
            s@ == self@,
    {
        self.0.as_str()
    }

    /// Whether both identifiers hold the same text.
    pub fn same_as(&self, other: &Self) -> (b: bool)
        ensures
            b == (self@ == other@),
    {
        self.0 == other.0
    }
}

impl PartialEq for TraceId {
    fn eq(&self, other: &Self) -> (b: bool) {
        self.0 == other.0
    }
}

impl PartialEqSpecImpl for TraceId {
    open spec fn obeys_eq_spec() -> bool {
        true
    }

    open spec fn eq_spec(&self, other: &Self) -> bool {
        self@ == other@
    }
}

impl Eq for TraceId {}

/// Identifier of a plan.
#[derive(Debug, Hash)]
pub struct PlanId(pub String);

impl Clone for PlanId {
    fn clone(&self) -> (r: Self)
        ensures
            r == *self,
    {
        PlanId(self.0.clone())
    }
}

impl View for PlanId {
    type V = Seq<char>;

    open spec fn view(&self) -> Seq<char> {
        self.0@
    }
}

impl PlanId {
    /// The identifier rendered from sequence number `n`: `"PlanId-<n>"`.
    pub fn with_sequence(n: u64) -> (id: Self)
        ensures
            id@ == "PlanId-"@ + decimal(n as nat),
    {
        PlanId(with_decimal("PlanId-", n))
    }

    /// Wraps an existing identifier string.
    pub fn from_string(value: &str) -> (id: Self)
        ensures
            id@ == value@,
    {
        PlanId(value.to_owned())
    }

    /// The identifier's text.
    pub fn as_str(&self) -> (s: &str)
        ensures
            s@ == self@,
    {
        self.0.as_str()
    }

    /// Whether both identifiers hold the same text.
    pub fn same_as(&self, other: &Self) -> (b: bool)
        ensures
            b == (self@ == other@),
    {
        self.0 == other.0
    }
}

impl PartialEq for PlanId {
    fn eq(&self, other: &Self) -> (b: bool) {
        self.0 == other.0
    }
}

impl PartialEqSpecImpl for PlanId {
    open spec fn obeys_eq_spec() -> bool {
        true
    }

    open spec fn eq_spec(&self, other: &Self) -> bool {
        self@ == other@
    }
}

impl Eq for PlanId {}

/// Identifier of a intent.
#[derive(Debug, Hash)]
pub struct IntentId(pub String);

impl Clone for IntentId {
    fn clone(&self) -> (r: Self)
        ensures
            r == *self,
    {
        IntentId(self.0.clone())
    }
}

impl View for IntentId {
    type V = Seq<char>;

    open spec fn view(&self) -> Seq<char> {
        self.0@
    }
}

impl IntentId {
    /// The identifier rendered from sequence number `n`: `"IntentId-<n>"`.
    pub fn with_sequence(n: u64) -> (id: Self)
        ensures
            id@ == "IntentId-"@ + decimal(n as nat),
    {
        IntentId(with_decimal("IntentId-", n))
    }

    /// Wraps an existing identifier string.
    pub fn from_string(value: &str) -> (id: Self)
        ensures
            id@ == value@,
    {
        IntentId(value.to_owned())
    }

    /// The identifier's text.
    pub fn as_str(&self) -> (s: &str)
        ensures
            s@ == self@,
    {
        self.0.as_str()
    }

    /// Whether both identifiers hold the same text.
    pub fn same_as(&self, other: &Self) -> (b: bool)
        ensures
            b == (self@ == other@),
    {
        self.0 == other.0
    }
}

impl PartialEq for IntentId {
    fn eq(&self, other: &Self) -> (b: bool) {
        self.0 == other.0
    }
}

impl PartialEqSpecImpl for IntentId {
    open spec fn obeys_eq_spec() -> bool {
        true
    }

    open spec fn eq_spec(&self, other: &Self) -> bool {
        self@ == other@
    }
}

impl Eq for IntentId {}

} // verus!
