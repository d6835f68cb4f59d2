//! Turns workload recommendations into cpu-weight proposals.
use vstd::prelude::*;
use crate::domain::action::{ActionKind, ActionRequest, ActionSafetyLevel};
use crate::domain::agent::{AgentKind, Capability, CapabilityScope, CapabilitySet};
use crate::domain::number::Real64;
use crate::domain::proposal::{Confidence, Proposal};
use crate::domain::recommendation::Recommendation;
use crate::domain::workload::{class_label, WorkloadClass};
use crate::ids::{next_sequence, sequence_after, AgentId, IdSource};
use crate::text::{concat2, contains_seq, decimal, str_contains};

verus! {

/// The workload class named in a recommendation summary: the first of `Database`,
/// `Interactive`, `Build`, `Batch`, `SystemService` that occurs in it, else `Unknown`.
pub open spec fn class_of_summary(s: Seq<char>) -> WorkloadClass {
    if contains_seq(s, "Database"@) {
        WorkloadClass::Database
    } else if contains_seq(s, "Interactive"@) {
        WorkloadClass::Interactive
    } else if contains_seq(s, "Build"@) {
        WorkloadClass::Build
    } else if contains_seq(s, "Batch"@) {
        WorkloadClass::Batch
    } else if contains_seq(s, "SystemService"@) {
        WorkloadClass::SystemService
    } else {
        WorkloadClass::Unknown
    }
}

/// The workload class named in a recommendation summary (see `class_of_summary`).
pub fn extract_class_from_summary(summary: &str) -> (c: WorkloadClass)
    ensures
        c == class_of_summary(summary@),
{
    if str_contains(summary, "Database") {
        WorkloadClass::Database
    } else if str_contains(summary, "Interactive") {
        WorkloadClass::Interactive
    } else if str_contains(summary, "Build") {
        WorkloadClass::Build
    } else if str_contains(summary, "Batch") {
        WorkloadClass::Batch
    } else if str_contains(summary, "SystemService") {
        WorkloadClass::SystemService
    } else {
        WorkloadClass::Unknown
    }
}

/// The cgroup, cpu weight and rationale suffix for a classified workload; `None` for
/// `Unknown`.
pub open spec fn class_policy(c: WorkloadClass) -> Option<(Seq<char>, u64, Seq<char>)> {
    match c {
        WorkloadClass::Database => Some(("agenticos/classified/database"@, 200u64, "Database classified workload → set cpu.weight=200"@)),
        WorkloadClass::Interactive => Some(("agenticos/classified/interactive"@, 150u64, "Interactive classified workload → set cpu.weight=150"@)),
        WorkloadClass::Batch => Some(("agenticos/classified/batch"@, 50u64, "Batch classified workload → set cpu.weight=50"@)),
        WorkloadClass::Build => Some(("agenticos/classified/build"@, 300u64, "Build classified workload → set cpu.weight=300"@)),
        WorkloadClass::SystemService => Some(("agenticos/classified/system-service"@, 100u64, "SystemService classified workload → set cpu.weight=100"@)),
        WorkloadClass::Unknown => None,
    }
}

fn class_policy_exec(c: WorkloadClass) -> (r: Option<(&'static str, u64, &'static str)>)
    ensures
        match class_policy(c) {
            Some((g, w, s)) => r matches Some((rg, rw, rs)) && rg@ == g && rw == w && rs@ == s,
            None => r.is_none(),
        },
{
    match c {
        WorkloadClass::Database => Some(("agenticos/classified/database", 200, "Database classified workload → set cpu.weight=200")),
        WorkloadClass::Interactive => Some(("agenticos/classified/interactive", 150, "Interactive classified workload → set cpu.weight=150")),
        WorkloadClass::Batch => Some(("agenticos/classified/batch", 50, "Batch classified workload → set cpu.weight=50")),
        WorkloadClass::Build => Some(("agenticos/classified/build", 300, "Build classified workload → set cpu.weight=300")),
        WorkloadClass::SystemService => Some(("agenticos/classified/system-service", 100, "SystemService classified workload → set cpu.weight=100")),
        WorkloadClass::Unknown => None,
    }
}

/// `ps` is what a recommendation of class `c` turns into, with proposal id number `seq`,
/// action id number `action_seq` and confidence `confidence`: nothing for `Unknown`; otherwise a single low-risk
/// cpu-weight proposal for the class's cgroup, attributed to the recommendation's source
/// agent and time, based on no observation, with rationale
/// `"Recommendation <id>: <suffix>"`.
pub open spec fn class_proposals(
    ps: Seq<Proposal>,
    c: WorkloadClass,
    rec: Recommendation,
    confidence: Confidence,
    seq: u64,
    action_seq: u64,
) -> bool {
    match class_policy(c) {
        None => ps.len() == 0,
        Some((group, weight, suffix)) => {
            &&& ps.len() == 1
            &&& ps[0].id@ == "ProposalId-"@ + decimal(seq as nat)
            &&& ps[0].agent_id == rec.source_agent
            &&& ps[0].created_at == rec.timestamp
            &&& ps[0].based_on@.len() == 0
            &&& ps[0].requested_action.id@ == "ActionId-"@ + decimal(action_seq as nat)
            &&& ps[0].requested_action.kind matches ActionKind::CgroupSetCpuWeight { group: g, weight: w }
                && g@ == group && w == weight
            &&& ps[0].requested_action.safety_level == ActionSafetyLevel::LowRisk
            &&& ps[0].rationale@ == "Recommendation "@ + rec.id@ + ": "@ + suffix
            &&& ps[0].confidence == confidence
        },
    }
}

/// The proposals for a recommendation already classified as `class`.
pub fn class_to_proposals(
    class: WorkloadClass,
    rec: &Recommendation,
    confidence: Confidence,
    ids: &mut IdSource,
) -> (ps: Vec<Proposal>)
    ensures
        class_proposals(ps@, class, *rec, confidence, old(ids).proposal, old(ids).action),
        class_policy(class).is_some() ==> *final(ids) == (IdSource {
            proposal: next_sequence(old(ids).proposal),
            action: next_sequence(old(ids).action),
            ..*old(ids)
        }),
        class_policy(class).is_none() ==> *final(ids) == *old(ids),
{
    let mut ps: Vec<Proposal> = Vec::new();
    match class_policy_exec(class) {
        None => {},
        Some((group, weight, suffix)) => {
            let mut rationale = concat2("Recommendation ", rec.id.as_str());
            rationale.append(": ");
            rationale.append(suffix);
            let id = ids.next_proposal_id();
            ps.push(Proposal {
                id,
                agent_id: rec.source_agent.clone(),
                created_at: rec.timestamp.clone(),
                based_on: Vec::new(),
                requested_action: ActionRequest {
                    id: ids.next_action_id(),
                    kind: ActionKind::CgroupSetCpuWeight { group: group.to_owned(), weight },
                    safety_level: ActionSafetyLevel::LowRisk,
                },
                rationale,
                confidence,
            });
        },
    }
    ps
}

/// The proposals for a recommendation: those of the class its summary names (see
/// `class_of_summary`), with confidence `confidence`.
pub fn recommendation_to_proposals(
    rec: &Recommendation,
    confidence: Confidence,
    ids: &mut IdSource,
) -> (ps: Vec<Proposal>)
    ensures
        class_proposals(ps@, class_of_summary(rec.summary@), *rec, confidence, old(ids).proposal, old(ids).action),
        *final(ids) == (IdSource {
            proposal: sequence_after(old(ids).proposal, ps@.len()),
            action: sequence_after(old(ids).action, ps@.len()),
            ..*old(ids)
        }),
{
    let class = extract_class_from_summary(rec.summary.as_str());
    let ps = class_to_proposals(class, rec, confidence, ids);
    proof {
        reveal_with_fuel(sequence_after, 2);
    }
    ps
}

/// Consumes recommendations and, on the next proposal round, turns each into at most one
/// proposal, counting how many were consumed, ignored and converted.
#[derive(Debug)]
pub struct RecommendationConsumerAgent {
    id: AgentId,
    pending: Vec<Recommendation>,
    consumed_count: u64,
    ignored_count: u64,
    converted_count: u64,
}

impl RecommendationConsumerAgent {
    pub fn new(id: AgentId) -> (a: Self)
        ensures
            a.agent() == id,
            a.pending_recommendations().len() == 0,
            a.consumed() == 0,
            a.ignored() == 0,
            a.converted() == 0,
            a.balanced(),
    {
        RecommendationConsumerAgent {
            id,
            pending: Vec::new(),
            consumed_count: 0,
            ignored_count: 0,
            converted_count: 0,
        }
    }

    pub closed spec fn agent(&self) -> AgentId {
        self.id
    }

    pub closed spec fn pending_recommendations(&self) -> Seq<Recommendation> {
        self.pending@
    }

    pub closed spec fn consumed(&self) -> u64 {
        self.consumed_count
    }

    pub closed spec fn ignored(&self) -> u64 {
        self.ignored_count
    }

    pub closed spec fn converted(&self) -> u64 {
        self.converted_count
    }

    /// Every recommendation consumed so far was either ignored or converted.
    pub closed spec fn balanced(&self) -> bool {
        self.consumed_count == self.ignored_count + self.converted_count
    }

    /// Queues `rec` for the next proposal round.
    pub fn consume_recommendation(&mut self, rec: Recommendation)
        ensures
            final(self).pending_recommendations() == old(self).pending_recommendations().push(rec),
            final(self).agent() == old(self).agent(),
            final(self).consumed() == old(self).consumed(),
            final(self).ignored() == old(self).ignored(),
            final(self).converted() == old(self).converted(),
            old(self).balanced() ==> final(self).balanced(),
            queues(*old(self), rec, *final(self)),
    {
        self.pending.push(rec);
    }

    pub fn recommendations_consumed(&self) -> (n: u64)
        ensures
            n == self.consumed(),
    {
        self.consumed_count
    }

    pub fn recommendations_ignored(&self) -> (n: u64)
        ensures
            n == self.ignored(),
    {
        self.ignored_count
    }

    pub fn recommendations_converted(&self) -> (n: u64)
        ensures
            n == self.converted(),
    {
        self.converted_count
    }

    pub fn id(&self) -> (r: AgentId)
        ensures
            r == self.agent(),
    {
        self.id.clone()
    }

    pub fn kind(&self) -> (k: AgentKind)
        ensures
            k matches AgentKind::Custom(name) && name@ == "RecommendationConsumer"@,
    {
        AgentKind::Custom("RecommendationConsumer".to_owned())
    }

    /// A single proposal-only capability, `recommendation-to-proposal`.
    pub fn capabilities(&self) -> (c: CapabilitySet)
        ensures
            c.capabilities@.len() == 1,
            c.capabilities@[0].name@ == "recommendation-to-proposal"@,
            c.capabilities@[0].scope == CapabilityScope::ProposalOnly,
    {
        let mut capabilities: Vec<Capability> = Vec::new();
        capabilities.push(Capability {
            name: "recommendation-to-proposal".to_owned(),
            scope: CapabilityScope::ProposalOnly,
        });
        CapabilitySet { capabilities }
    }

    /// Drains the pending recommendations, in order, into proposals. Each recommendation
    /// counts as consumed; one of `Unknown` class counts as ignored, any other as converted
    /// into one proposal whose confidence is `narrow` applied to the recommendation's
    /// confidence (the `f64` to `f32` conversion).
    pub fn propose<F: Fn(Real64) -> Confidence>(&mut self, narrow: F, ids: &mut IdSource) -> (ps: Vec<Proposal>)
        requires
            forall|x: Real64| narrow.requires((x,)),
            old(self).consumed() + old(self).pending_recommendations().len() <= u64::MAX,
            old(self).ignored() + old(self).pending_recommendations().len() <= u64::MAX,
            old(self).converted() + old(self).pending_recommendations().len() <= u64::MAX,
        ensures
            final(self).pending_recommendations().len() == 0,
            final(self).agent() == old(self).agent(),
            final(self).consumed() == old(self).consumed() + old(self).pending_recommendations().len(),
            final(self).ignored() + final(self).converted() == old(self).ignored() + old(self).converted()
                + old(self).pending_recommendations().len(),
            final(self).converted() == old(self).converted() + ps@.len(),
            old(self).balanced() ==> final(self).balanced(),
            ps@.len() == old(self).pending_recommendations().filter(
                |r: Recommendation| class_of_summary(r.summary@) != WorkloadClass::Unknown,
            ).len(),
            forall|k: int| 0 <= k < ps@.len() ==> {
                let r = old(self).pending_recommendations().filter(
                    |r: Recommendation| class_of_summary(r.summary@) != WorkloadClass::Unknown,
                )[k];
                &&& (#[trigger] ps@[k]).agent_id == r.source_agent
                &&& ps@[k].created_at == r.timestamp
                &&& ps@[k].requested_action.safety_level == ActionSafetyLevel::LowRisk
                &&& narrow.ensures((r.confidence,), ps@[k].confidence)
                &&& class_proposals(
                    seq![ps@[k]],
                    class_of_summary(r.summary@),
                    r,
                    ps@[k].confidence,
                    sequence_after(old(ids).proposal, k as nat),
                    sequence_after(old(ids).action, k as nat),
                )
            },
            *final(ids) == (IdSource {
                proposal: sequence_after(old(ids).proposal, ps@.len()),
                action: sequence_after(old(ids).action, ps@.len()),
                ..*old(ids)
            }),
            proposal_round(*old(self), *final(self), ps@, old(ids).proposal, old(ids).action),
    {
        let ghost p0 = ids.proposal;
        let ghost a0 = ids.action;
        let mut pending: Vec<Recommendation> = Vec::new();
        std::mem::swap(&mut pending, &mut self.pending);
        let ghost pred = |r: Recommendation| class_of_summary(r.summary@) != WorkloadClass::Unknown;
        let mut all: Vec<Proposal> = Vec::new();
        let mut i: usize = 0;
        while i < pending.len()
            invariant
                forall|x: Real64| narrow.requires((x,)),
                i <= pending@.len(),
                pending@ == old(self).pending_recommendations(),
                self.pending@.len() == 0,
                self.id == old(self).agent(),
                self.consumed_count == old(self).consumed() + i,
                self.ignored_count + self.converted_count == old(self).ignored() + old(self).converted() + i,
                self.converted_count == old(self).converted() + all@.len(),
                self.ignored_count >= old(self).ignored(),
                self.ignored_count <= old(self).ignored() + i,
                self.converted_count <= old(self).converted() + i,
                old(self).consumed() + pending@.len() <= u64::MAX,
                old(self).ignored() + pending@.len() <= u64::MAX,
                old(self).converted() + pending@.len() <= u64::MAX,
                pred == (|r: Recommendation| class_of_summary(r.summary@) != WorkloadClass::Unknown),
                all@.len() == pending@.take(i as int).filter(pred).len(),
                forall|k: int| 0 <= k < all@.len() ==> {
                    let r = pending@.take(i as int).filter(pred)[k];
                    &&& (#[trigger] all@[k]).agent_id == r.source_agent
                    &&& all@[k].created_at == r.timestamp
                    &&& all@[k].requested_action.safety_level == ActionSafetyLevel::LowRisk
                    &&& narrow.ensures((r.confidence,), all@[k].confidence)
                    &&& class_proposals(
                        seq![all@[k]],
                        class_of_summary(r.summary@),
                        r,
                        all@[k].confidence,
                        sequence_after(p0, k as nat),
                        sequence_after(a0, k as nat),
                    )
                },
                *ids == (IdSource {
                    proposal: sequence_after(p0, all@.len()),
                    action: sequence_after(a0, all@.len()),
                    ..*old(ids)
                }),
            decreases pending.len() - i,
        {
            let rec = &pending[i];
            proof {
                reveal_with_fuel(Seq::<_>::filter, 1);
                assert(pending@.take(i + 1).drop_last() =~= pending@.take(i as int));
                assert(pending@.take(i + 1).last() == pending@[i as int]);
            }
            self.consumed_count = self.consumed_count + 1;
            let class = extract_class_from_summary(rec.summary.as_str());
            let confidence = narrow(rec.confidence);
            let ghost seq_before = ids.proposal;
            let ghost action_before = ids.action;
            let mut ps = class_to_proposals(class, rec, confidence, ids);
            if ps.len() == 0 {
                self.ignored_count = self.ignored_count + 1;
            } else {
                self.converted_count = self.converted_count + 1;
                let p = ps.pop().unwrap();
                proof {
                    assert(ps@.len() == 0);
                }
                proof {
                    assert(class_proposals(seq![p], class, *rec, confidence, seq_before, action_before));
                }
                let ghost before = all@;
                all.push(p);
                proof {
                    assert(sequence_after(p0, all@.len()) == next_sequence(sequence_after(p0, before.len())));
                    assert(sequence_after(a0, all@.len()) == next_sequence(sequence_after(a0, before.len())));
                }
            }
            i = i + 1;
        }
        proof {
            assert(pending@.take(pending@.len() as int) =~= pending@);
            assert forall|k: int| 0 <= k < all@.len() implies class_proposals(
                seq![#[trigger] all@[k]],
                class_of_summary(recognised(pending@)[k].summary@),
                recognised(pending@)[k],
                all@[k].confidence,
                sequence_after(p0, k as nat),
                sequence_after(a0, k as nat),
            ) by {}
        }
        all
    }
}


/// The recommendations among `recs` whose summary names a known class, in order.
pub open spec fn recognised(recs: Seq<Recommendation>) -> Seq<Recommendation> {
    recs.filter(|r: Recommendation| class_of_summary(r.summary@) != WorkloadClass::Unknown)
}

/// `ps` convert the recognised recommendations among `recs`, in order, one proposal each
/// (see `class_proposals`), with proposal and action ids drawn from `seq` and `action_seq`.
pub open spec fn converts_in_order(recs: Seq<Recommendation>, ps: Seq<Proposal>, seq: u64, action_seq: u64) -> bool {
    &&& ps.len() == recognised(recs).len()
    &&& forall|k: int| 0 <= k < ps.len() ==> class_proposals(
        seq![#[trigger] ps[k]],
        class_of_summary(recognised(recs)[k].summary@),
        recognised(recs)[k],
        ps[k].confidence,
        sequence_after(seq, k as nat),
        sequence_after(action_seq, k as nat),
    )
}

/// One call of `consume_recommendation`: `rec` joined the end of the queue; nothing else
/// changed.
pub open spec fn queues(before: RecommendationConsumerAgent, rec: Recommendation, after: RecommendationConsumerAgent) -> bool {
    &&& after.pending_recommendations() == before.pending_recommendations().push(rec)
    &&& after.agent() == before.agent()
    &&& after.consumed() == before.consumed()
    &&& after.ignored() == before.ignored()
    &&& after.converted() == before.converted()
}

/// One call of `propose` returning `ps`: the queue was drained, each queued recommendation
/// counted as consumed, the recognised ones converted in order into `ps` and the others
/// ignored.
pub open spec fn proposal_round(
    before: RecommendationConsumerAgent,
    after: RecommendationConsumerAgent,
    ps: Seq<Proposal>,
    seq: u64,
    action_seq: u64,
) -> bool {
    let queued = before.pending_recommendations();
    &&& after.pending_recommendations().len() == 0
    &&& after.agent() == before.agent()
    &&& after.consumed() == before.consumed() + queued.len()
    &&& after.converted() == before.converted() + ps.len()
    &&& after.ignored() == before.ignored() + queued.len() - ps.len()
    &&& converts_in_order(queued, ps, seq, action_seq)
}

/// One call of either kind, returning `produced` proposals (none for a queued
/// recommendation).
pub open spec fn consumer_call(before: RecommendationConsumerAgent, after: RecommendationConsumerAgent, produced: nat) -> bool {
    ||| (produced == 0 && exists|rec: Recommendation| #[trigger] queues(before, rec, after))
    ||| exists|ps: Seq<Proposal>, seq: u64, action_seq: u64|
        #[trigger] proposal_round(before, after, ps, seq, action_seq) && ps.len() == produced
}

/// The queue after the first `i` of the recommendations `recs` were queued on an agent
/// with an empty queue holds exactly those, in order, and the counters are unchanged.
proof fn lemma_queue_holds(agents: Seq<RecommendationConsumerAgent>, recs: Seq<Recommendation>, i: int)
    requires
        agents.len() == recs.len() + 1,
        agents[0].pending_recommendations().len() == 0,
        forall|j: int| 0 <= j < recs.len() ==> queues(agents[j], #[trigger] recs[j], agents[j + 1]),
        0 <= i <= recs.len(),
    ensures
        agents[i].pending_recommendations() == recs.take(i),
        agents[i].consumed() == agents[0].consumed(),
        agents[i].converted() == agents[0].converted(),
        agents[i].ignored() == agents[0].ignored(),
    decreases i,
{
    if i == 0 {
        assert(agents[0].pending_recommendations() =~= recs.take(0));
    } else {
        lemma_queue_holds(agents, recs, i - 1);
        assert(queues(agents[i - 1], recs[i - 1], agents[i]));
        assert(recs.take(i - 1).push(recs[i - 1]) =~= recs.take(i));
    }
}

/// The next proposal round converts exactly what was queued since the last one, first
/// queued first converted, and queueing never changes the counters; a round right after
/// it returns nothing and leaves the counters as they are. `agents[i]` is the agent
/// before `recs[i]` was queued (`agents[0]`, just after a round, with an empty queue);
/// the rounds take the agent from the last of them to `after` and then to `after2`.
pub proof fn lemma_round_converts_what_was_queued(
    agents: Seq<RecommendationConsumerAgent>,
    recs: Seq<Recommendation>,
    after: RecommendationConsumerAgent,
    ps: Seq<Proposal>,
    seq: u64,
    action_seq: u64,
    after2: RecommendationConsumerAgent,
    ps2: Seq<Proposal>,
    seq2: u64,
    action_seq2: u64,
)
    requires
        agents.len() == recs.len() + 1,
        agents[0].pending_recommendations().len() == 0,
        forall|j: int| 0 <= j < recs.len() ==> queues(agents[j], #[trigger] recs[j], agents[j + 1]),
        proposal_round(agents.last(), after, ps, seq, action_seq),
        proposal_round(after, after2, ps2, seq2, action_seq2),
    ensures
        agents.last().pending_recommendations() == recs,
        agents.last().consumed() == agents[0].consumed(),
        agents.last().converted() == agents[0].converted(),
        agents.last().ignored() == agents[0].ignored(),
        converts_in_order(recs, ps, seq, action_seq),
        after.consumed() == agents[0].consumed() + recs.len(),
        ps2.len() == 0,
        after2.consumed() == after.consumed(),
        after2.converted() == after.converted(),
        after2.ignored() == after.ignored(),
{
    lemma_queue_holds(agents, recs, recs.len() as int);
    assert(recs.take(recs.len() as int) =~= recs);
    assert(recognised(after.pending_recommendations()) =~= Seq::<Recommendation>::empty()) by {
        reveal_with_fuel(Seq::<_>::filter, 1);
        assert(after.pending_recommendations() =~= Seq::<Recommendation>::empty());
    }
}

/// Over any sequence of calls, every recommendation consumed was either ignored or
/// converted, no counter ever decreases, and each call's proposals are exactly the
/// increase of the converted count. `agents[i]` is the agent before call `i`, which
/// returned `produced[i]` proposals; `agents[0]` is balanced, as a new agent is.
pub proof fn lemma_counters_over_calls(agents: Seq<RecommendationConsumerAgent>, produced: Seq<nat>)
    requires
        agents.len() == produced.len() + 1,
        agents[0].balanced(),
        forall|i: int| 0 <= i < produced.len() ==> consumer_call(agents[i], agents[i + 1], #[trigger] produced[i]),
    ensures
        forall|i: int| 0 <= i < agents.len() ==> (#[trigger] agents[i]).balanced(),
        forall|i: int| 0 <= i < produced.len() ==> {
            &&& agents[i].consumed() <= (#[trigger] agents[i + 1]).consumed()
            &&& agents[i].ignored() <= agents[i + 1].ignored()
            &&& agents[i + 1].converted() == agents[i].converted() + produced[i]
        },
    decreases produced.len(),
{
    if produced.len() > 0 {
        let m = produced.len() - 1;
        let front = agents.drop_last();
        lemma_counters_over_calls(front, produced.drop_last());
        assert(front[m] == agents[m]);
        assert(agents[m].balanced());
        assert(consumer_call(agents[m], agents[m + 1], produced[m]));
        if exists|rec: Recommendation| #[trigger] queues(agents[m], rec, agents[m + 1]) {
            let rec = choose|rec: Recommendation| #[trigger] queues(agents[m], rec, agents[m + 1]);
            assert(queues(agents[m], rec, agents[m + 1]));
        }
        if exists|ps: Seq<Proposal>, seq: u64, action_seq: u64|
            #[trigger] proposal_round(agents[m], agents[m + 1], ps, seq, action_seq) && ps.len() == produced[m] {
            let (ps, sq, aq) = choose|ps: Seq<Proposal>, seq: u64, action_seq: u64|
                #[trigger] proposal_round(agents[m], agents[m + 1], ps, seq, action_seq) && ps.len() == produced[m];
            let queued = agents[m].pending_recommendations();
            assert(recognised(queued).len() <= queued.len()) by {
                queued.lemma_filter_len(|r: Recommendation| class_of_summary(r.summary@) != WorkloadClass::Unknown);
            }
        }
        assert forall|i: int| 0 <= i < agents.len() implies (#[trigger] agents[i]).balanced() by {
            if i <= m {
                assert(front[i] == agents[i]);
            }
        }
        assert forall|i: int| 0 <= i < produced.len() implies {
            &&& agents[i].consumed() <= (#[trigger] agents[i + 1]).consumed()
            &&& agents[i].ignored() <= agents[i + 1].ignored()
            &&& agents[i + 1].converted() == agents[i].converted() + produced[i]
        } by {
            if i < m {
                assert(front[i] == agents[i]);
                assert(front[i + 1] == agents[i + 1]);
                assert(produced.drop_last()[i] == produced[i]);
            }
        }
    }
}


/// `c` is an upper-case ASCII letter.
pub open spec fn is_upper(c: char) -> bool {
    'A' <= c && c <= 'Z'
}

/// `c` in lower case (ASCII letters only).
pub open spec fn to_lower(c: char) -> char {
    if is_upper(c) { ((c as u32) + 32) as char } else { c }
}

/// The rest of a camel-case name in kebab form: each upper-case letter becomes a hyphen
/// followed by that letter in lower case.
pub open spec fn kebab_rest(s: Seq<char>) -> Seq<char>
    decreases s.len(),
{
    if s.len() == 0 {
        s
    } else if is_upper(s[0]) {
        seq!['-', to_lower(s[0])] + kebab_rest(s.skip(1))
    } else {
        seq![s[0]] + kebab_rest(s.skip(1))
    }
}

/// A camel-case name in lower-case kebab form (`SystemService` becomes `system-service`).
pub open spec fn kebab(s: Seq<char>) -> Seq<char> {
    if s.len() == 0 { s } else { seq![to_lower(s[0])] + kebab_rest(s.skip(1)) }
}

/// Classification law: the cgroup that a class's proposal targets is
/// `agenticos/classified/` followed by the class's own name in lower-case kebab form, and
/// every class but `Unknown` has one.
pub proof fn lemma_class_cgroup_named_after_class(c: WorkloadClass)
    ensures
        c != WorkloadClass::Unknown ==> (class_policy(c) matches Some((g, _, _))
            && g == "agenticos/classified/"@ + kebab(class_label(c))),
        c == WorkloadClass::Unknown ==> class_policy(c).is_none(),
{
    reveal_strlit("Database");
    reveal_strlit("Interactive");
    reveal_strlit("Build");
    reveal_strlit("Batch");
    reveal_strlit("SystemService");
    reveal_strlit("agenticos/classified/");
    reveal_strlit("agenticos/classified/database");
    reveal_strlit("agenticos/classified/interactive");
    reveal_strlit("agenticos/classified/batch");
    reveal_strlit("agenticos/classified/build");
    reveal_strlit("agenticos/classified/system-service");
    match c {
        WorkloadClass::Database => {
            assert(kebab("Database"@) =~= "database"@) by {
                reveal_strlit("database");
                reveal_with_fuel(kebab_rest, 9);
            }
            assert("agenticos/classified/"@ + "database"@ =~= "agenticos/classified/database"@) by {
                reveal_strlit("database");
            }
        },
        WorkloadClass::Interactive => {
            assert(kebab("Interactive"@) =~= "interactive"@) by {
                reveal_strlit("interactive");
                reveal_with_fuel(kebab_rest, 12);
            }
            assert("agenticos/classified/"@ + "interactive"@ =~= "agenticos/classified/interactive"@) by {
                reveal_strlit("interactive");
            }
        },
        WorkloadClass::Build => {
            assert(kebab("Build"@) =~= "build"@) by {
                reveal_strlit("build");
                reveal_with_fuel(kebab_rest, 6);
            }
            assert("agenticos/classified/"@ + "build"@ =~= "agenticos/classified/build"@) by {
                reveal_strlit("build");
            }
        },
        WorkloadClass::Batch => {
            assert(kebab("Batch"@) =~= "batch"@) by {
                reveal_strlit("batch");
                reveal_with_fuel(kebab_rest, 6);
            }
            assert("agenticos/classified/"@ + "batch"@ =~= "agenticos/classified/batch"@) by {
                reveal_strlit("batch");
            }
        },
        WorkloadClass::SystemService => {
            assert(kebab("SystemService"@) =~= "system-service"@) by {
                reveal_strlit("system-service");
                reveal_with_fuel(kebab_rest, 14);
            }
            assert("agenticos/classified/"@ + "system-service"@ =~= "agenticos/classified/system-service"@) by {
                reveal_strlit("system-service");
            }
        },
        WorkloadClass::Unknown => {},
    }
}

/// Distinct classes target distinct cgroups.
pub proof fn lemma_classes_target_distinct_cgroups(c1: WorkloadClass, c2: WorkloadClass)
    requires
        c1 != c2,
        class_policy(c1).is_some(),
        class_policy(c2).is_some(),
    ensures
        (class_policy(c1)->0).0 != (class_policy(c2)->0).0,
{
    reveal_strlit("agenticos/classified/database");
    reveal_strlit("agenticos/classified/interactive");
    reveal_strlit("agenticos/classified/batch");
    reveal_strlit("agenticos/classified/build");
    reveal_strlit("agenticos/classified/system-service");
    let g1 = (class_policy(c1)->0).0;
    let g2 = (class_policy(c2)->0).0;
    if g1.len() == g2.len() {
        assert(g1[22] != g2[22]);
    }
}

} // verus!
