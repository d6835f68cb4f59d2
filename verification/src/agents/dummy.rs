//! Two test agents that compete over the same memory limit, used to exercise policy
//! arbitration: one proposes a conservative increase, the other an aggressive one.
use vstd::prelude::*;
use crate::clock::now_utc;
use crate::domain::action::{ActionKind, ActionRequest, ActionSafetyLevel};
use crate::domain::agent::{AgentKind, CapabilitySet};
use crate::domain::observation::{Observation, ObservationPayload};
use crate::domain::proposal::{Confidence, Proposal};
use crate::ids::{next_sequence, sequence_after, AgentId, IdSource, ObservationId};
use crate::text::{decimal, push_decimal};

verus! {

/// Bit pattern of the binary32 value `0.85`.
pub const CONSERVATIVE_CONFIDENCE_BITS: u32 = 0x3F59_999A;

/// Bit pattern of the binary32 value `0.95`.
pub const AGGRESSIVE_CONFIDENCE_BITS: u32 = 0x3F73_3333;

/// The memory observations of `obs` that report a non-zero usage, in order.
pub open spec fn used_memory_observations(obs: Seq<Observation>) -> Seq<Observation> {
    obs.filter(|o: Observation| o.payload matches ObservationPayload::Memory(m) && m.used_bytes != 0)
}

/// The used bytes of a memory observation.
pub open spec fn used_bytes_of(o: Observation) -> u64 {
    match o.payload {
        ObservationPayload::Memory(m) => m.used_bytes,
        _ => 0,
    }
}

/// The memory limit a proposal asks for (0 for other kinds).
pub open spec fn limit_of(p: Proposal) -> u64 {
    match p.requested_action.kind {
        ActionKind::CgroupSetMemoryMax { bytes, .. } => bytes,
        _ => 0,
    }
}

/// `p` proposes, for observation `o`, a medium-risk `memory.max` of `bytes` for the
/// `agenticos` cgroup, from `agent`, with rationale `<prefix><bytes>B` and `confidence`.
pub open spec fn is_memory_limit_proposal(
    p: Proposal,
    agent: AgentId,
    o: Observation,
    bytes: u64,
    prefix: Seq<char>,
    confidence: Confidence,
) -> bool {
    &&& p.agent_id == agent
    &&& crate::clock::is_timestamp(p.created_at@)
    &&& p.based_on@.len() == 1
    &&& p.based_on@[0] == o.id
    &&& p.requested_action.kind matches ActionKind::CgroupSetMemoryMax { group, bytes: b }
        && group@ == "agenticos"@ && b == bytes
    &&& p.requested_action.safety_level == ActionSafetyLevel::MediumRisk
    &&& p.rationale@ == prefix + decimal(bytes as nat) + "B"@
    &&& p.confidence == confidence
}

/// `p` carries the proposal id and the action id of draw number `k` from sequences
/// starting at `pstart` and `astart`.
pub open spec fn has_draw_ids(p: Proposal, k: nat, pstart: u64, astart: u64) -> bool {
    &&& p.id@ == "ProposalId-"@ + decimal(sequence_after(pstart, k) as nat)
    &&& p.requested_action.id@ == "ActionId-"@ + decimal(sequence_after(astart, k) as nat)
}

/// One proposal per memory observation with non-zero usage, in order; the new limit is
/// `scale` applied to the observed usage.
fn memory_limit_proposals<F: Fn(u64) -> u64>(
    agent: &AgentId,
    observations: &[Observation],
    scale: F,
    prefix: &str,
    confidence: Confidence,
    ids: &mut IdSource,
) -> (ps: Vec<Proposal>)
    requires
        forall|x: u64| scale.requires((x,)),
    ensures
        ps@.len() == used_memory_observations(observations@).len(),
        forall|k: int| 0 <= k < ps@.len() ==> {
            &&& scale.ensures((used_bytes_of(used_memory_observations(observations@)[k]),), limit_of(ps@[k]))
            &&& is_memory_limit_proposal(
                #[trigger] ps@[k],
                *agent,
                used_memory_observations(observations@)[k],
                limit_of(ps@[k]),
                prefix@,
                confidence,
            )
            &&& has_draw_ids(ps@[k], k as nat, old(ids).proposal, old(ids).action)
        },
        *final(ids) == (IdSource {
            proposal: sequence_after(old(ids).proposal, ps@.len()),
            action: sequence_after(old(ids).action, ps@.len()),
            ..*old(ids)
        }),
{
    let now = now_utc();
    let ghost p0 = ids.proposal;
    let ghost a0 = ids.action;
    let ghost pred = |o: Observation| o.payload matches ObservationPayload::Memory(m) && m.used_bytes != 0;
    let mut ps: Vec<Proposal> = Vec::new();
    let mut i: usize = 0;
    while i < observations.len()
        invariant
            forall|x: u64| scale.requires((x,)),
            i <= observations@.len(),
            crate::clock::is_timestamp(now@),
            pred == (|o: Observation| o.payload matches ObservationPayload::Memory(m) && m.used_bytes != 0),
            ps@.len() == observations@.take(i as int).filter(pred).len(),
            forall|k: int| 0 <= k < ps@.len() ==> {
                &&& scale.ensures((used_bytes_of(observations@.take(i as int).filter(pred)[k]),), limit_of(ps@[k]))
                &&& is_memory_limit_proposal(
                    #[trigger] ps@[k],
                    *agent,
                    observations@.take(i as int).filter(pred)[k],
                    limit_of(ps@[k]),
                    prefix@,
                    confidence,
                )
                &&& has_draw_ids(ps@[k], k as nat, p0, a0)
            },
            *ids == (IdSource {
                proposal: sequence_after(p0, ps@.len()),
                action: sequence_after(a0, ps@.len()),
                ..*old(ids)
            }),
        decreases observations.len() - i,
    {
        proof {
            reveal_with_fuel(Seq::<_>::filter, 1);
            assert(observations@.take(i + 1).drop_last() =~= observations@.take(i as int));
            assert(observations@.take(i + 1).last() == observations@[i as int]);
        }
        let obs = &observations[i];
        match &obs.payload {
            ObservationPayload::Memory(m) => {
                if m.used_bytes != 0 {
                    let new_max = scale(m.used_bytes);
                    let mut rationale = prefix.to_owned();
                    push_decimal(&mut rationale, new_max);
                    rationale.append("B");
                    let mut based_on: Vec<ObservationId> = Vec::new();
                    based_on.push(obs.id.clone());
                    let p = Proposal {
                        id: ids.next_proposal_id(),
                        agent_id: agent.clone(),
                        created_at: now.clone(),
                        based_on,
                        requested_action: ActionRequest {
                            id: ids.next_action_id(),
                            kind: ActionKind::CgroupSetMemoryMax {
                                group: "agenticos".to_owned(),
                                bytes: new_max,
                            },
                            safety_level: ActionSafetyLevel::MediumRisk,
                        },
                        rationale,
                        confidence,
                    };
                    let ghost before = ps@;
                    ps.push(p);
                    proof {
                        let f = observations@.take(i + 1).filter(pred);
                        assert(f == observations@.take(i as int).filter(pred).push(observations@[i as int]));
                        assert(sequence_after(p0, ps@.len()) == next_sequence(sequence_after(p0, before.len())));
                        assert(sequence_after(a0, ps@.len()) == next_sequence(sequence_after(a0, before.len())));
                        assert forall|k: int| 0 <= k < ps@.len() implies {
                            &&& scale.ensures((used_bytes_of(f[k]),), limit_of(ps@[k]))
                            &&& is_memory_limit_proposal(#[trigger] ps@[k], *agent, f[k], limit_of(ps@[k]), prefix@, confidence)
                            &&& has_draw_ids(ps@[k], k as nat, p0, a0)
                        } by {
                            if k < ps@.len() - 1 {
                                assert(ps@[k] == before[k]);
                            }
                        }
                    }
                }
            },
            _ => {},
        }
        i = i + 1;
    }
    proof {
        assert(observations@.take(observations@.len() as int) =~= observations@);
    }
    ps
}

/// Proposes a conservative increase of the `agenticos` memory limit (observed usage times
/// 1.1) for every memory observation with non-zero usage.
#[derive(Debug)]
pub struct DummyAgentA {
    id: AgentId,
}

impl DummyAgentA {
    pub fn new(id: AgentId) -> (a: Self)
        ensures
            a.agent() == id,
    {
        DummyAgentA { id }
    }

    pub closed spec fn agent(&self) -> AgentId {
        self.id
    }

    pub fn id(&self) -> (r: AgentId)
        ensures
            r == self.agent(),
    {
        self.id.clone()
    }

    pub fn kind(&self) -> (k: AgentKind)
        ensures
            k == AgentKind::Memory,
    {
        AgentKind::Memory
    }

    pub fn capabilities(&self) -> (c: CapabilitySet)
        ensures
            c.capabilities@.len() == 0,
    {
        CapabilitySet::default()
    }

    /// One proposal per memory observation with non-zero usage, in order: limit
    /// `scale(used)` (the caller computes `used * 1.1` in floating point), rationale
    /// `"DummyAgentA: conservative increase to <limit>B"`, confidence 0.85.
    pub fn propose<F: Fn(u64) -> u64>(&self, observations: &[Observation], scale: F, ids: &mut IdSource) -> (ps: Vec<Proposal>)
        requires
            forall|x: u64| scale.requires((x,)),
        ensures
            ps@.len() == used_memory_observations(observations@).len(),
            forall|k: int| 0 <= k < ps@.len() ==> {
                &&& scale.ensures((used_bytes_of(used_memory_observations(observations@)[k]),), limit_of(ps@[k]))
                &&& is_memory_limit_proposal(
                    #[trigger] ps@[k],
                    self.agent(),
                    used_memory_observations(observations@)[k],
                    limit_of(ps@[k]),
                    "DummyAgentA: conservative increase to "@,
                    Confidence(CONSERVATIVE_CONFIDENCE_BITS),
                )
                &&& has_draw_ids(ps@[k], k as nat, old(ids).proposal, old(ids).action)
            },
            *final(ids) == (IdSource {
                proposal: sequence_after(old(ids).proposal, ps@.len()),
                action: sequence_after(old(ids).action, ps@.len()),
                ..*old(ids)
            }),
    {
        memory_limit_proposals(
            &self.id,
            observations,
            scale,
            "DummyAgentA: conservative increase to ",
            Confidence(CONSERVATIVE_CONFIDENCE_BITS),
            ids,
        )
    }
}

/// Proposes an aggressive increase of the `agenticos` memory limit (observed usage times
/// 1.5) for every memory observation with non-zero usage.
#[derive(Debug)]
pub struct DummyAgentB {
    id: AgentId,
}

impl DummyAgentB {
    pub fn new(id: AgentId) -> (a: Self)
        ensures
            a.agent() == id,
    {
        DummyAgentB { id }
    }

    pub closed spec fn agent(&self) -> AgentId {
        self.id
    }

    pub fn id(&self) -> (r: AgentId)
        ensures
            r == self.agent(),
    {
        self.id.clone()
    }

    pub fn kind(&self) -> (k: AgentKind)
        ensures
            k == AgentKind::Memory,
    {
        AgentKind::Memory
    }

    pub fn capabilities(&self) -> (c: CapabilitySet)
        ensures
            c.capabilities@.len() == 0,
    {
        CapabilitySet::default()
    }

    /// One proposal per memory observation with non-zero usage, in order: limit
    /// `scale(used)` (the caller computes `used * 1.5` in floating point), rationale
    /// `"DummyAgentB: aggressive increase to <limit>B"`, confidence 0.95.
    pub fn propose<F: Fn(u64) -> u64>(&self, observations: &[Observation], scale: F, ids: &mut IdSource) -> (ps: Vec<Proposal>)
        requires
            forall|x: u64| scale.requires((x,)),
        ensures
            ps@.len() == used_memory_observations(observations@).len(),
            forall|k: int| 0 <= k < ps@.len() ==> {
                &&& scale.ensures((used_bytes_of(used_memory_observations(observations@)[k]),), limit_of(ps@[k]))
                &&& is_memory_limit_proposal(
                    #[trigger] ps@[k],
                    self.agent(),
                    used_memory_observations(observations@)[k],
                    limit_of(ps@[k]),
                    "DummyAgentB: aggressive increase to "@,
                    Confidence(AGGRESSIVE_CONFIDENCE_BITS),
                )
                &&& has_draw_ids(ps@[k], k as nat, old(ids).proposal, old(ids).action)
            },
            *final(ids) == (IdSource {
                proposal: sequence_after(old(ids).proposal, ps@.len()),
                action: sequence_after(old(ids).action, ps@.len()),
                ..*old(ids)
            }),
    {
        memory_limit_proposals(
            &self.id,
            observations,
            scale,
            "DummyAgentB: aggressive increase to ",
            Confidence(AGGRESSIVE_CONFIDENCE_BITS),
            ids,
        )
    }
}

} // verus!
