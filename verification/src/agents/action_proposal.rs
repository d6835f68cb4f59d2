//! Turns action graphs into proposals for the policy, safety and executor pipeline.
use vstd::prelude::*;
use crate::clock::now_utc;
use crate::domain::action::{ActionKind, ActionRequest, ActionSafetyLevel};
use crate::domain::action_graph::{ActionGraph, ActionNode};
use crate::domain::proposal::{Confidence, Proposal};
use crate::domain::render::{kind_text, push_kind_text};
use crate::ids::{next_sequence, sequence_after, AgentId, IdSource, ObservationId};
use crate::text::{decimal, push_decimal};

verus! {

/// Bit pattern of the binary32 value `0.9`, the confidence of every plan-derived proposal.
pub const PLAN_CONFIDENCE_BITS: u32 = 0x3F66_6666;

/// The safety level that governance assigns to an action kind.
pub open spec fn safety_level_of(kind: ActionKind) -> ActionSafetyLevel {
    match kind {
        ActionKind::LaunchApplication { .. } => ActionSafetyLevel::MediumRisk,
        ActionKind::OpenUrl { .. } => ActionSafetyLevel::LowRisk,
        ActionKind::RunCommand { .. } => ActionSafetyLevel::HighRisk,
        ActionKind::CreateDirectory { .. } => ActionSafetyLevel::MediumRisk,
        ActionKind::OpenFile { .. } => ActionSafetyLevel::LowRisk,
        ActionKind::CloneRepository { .. } => ActionSafetyLevel::MediumRisk,
        ActionKind::CreateProjectWorkspace { .. } => ActionSafetyLevel::LowRisk,
        ActionKind::CgroupCreate { .. } => ActionSafetyLevel::MediumRisk,
        ActionKind::CgroupSetCpuMax { .. } => ActionSafetyLevel::MediumRisk,
        ActionKind::CgroupSetCpuWeight { .. } => ActionSafetyLevel::MediumRisk,
        ActionKind::CgroupSetMemoryMax { .. } => ActionSafetyLevel::MediumRisk,
        ActionKind::CgroupMovePid { .. } => ActionSafetyLevel::HighRisk,
        ActionKind::ProcessFreezeGroup { .. } => ActionSafetyLevel::HighRisk,
        ActionKind::ProcessThawGroup { .. } => ActionSafetyLevel::HighRisk,
        ActionKind::ProcessTerminateGroup { .. } => ActionSafetyLevel::HighRisk,
        ActionKind::WorkloadClassifyRecommend { .. } => ActionSafetyLevel::ReadOnly,
        ActionKind::ObserveOnly => ActionSafetyLevel::ReadOnly,
    }
}

/// The action moves a process between cgroups, freezes, thaws or terminates a group's
/// processes, or runs an arbitrary command.
pub open spec fn moves_or_stops_processes(kind: ActionKind) -> bool {
    ||| kind is CgroupMovePid
    ||| kind is ProcessFreezeGroup
    ||| kind is ProcessThawGroup
    ||| kind is ProcessTerminateGroup
    ||| kind is RunCommand
}

/// The risk rank of a safety level: read-only 0, low 1, medium 2, high 3.
pub open spec fn risk_rank(l: ActionSafetyLevel) -> int {
    match l {
        ActionSafetyLevel::ReadOnly => 0,
        ActionSafetyLevel::LowRisk => 1,
        ActionSafetyLevel::MediumRisk => 2,
        ActionSafetyLevel::HighRisk => 3,
    }
}

/// Governance law: every action that moves, freezes, thaws or kills processes, and every
/// arbitrary command, is high-risk; no other action ranks above it, and only the
/// observing and classifying actions are read-only.
pub proof fn lemma_process_actions_are_high_risk(kind: ActionKind, other: ActionKind)
    ensures
        moves_or_stops_processes(kind) ==> safety_level_of(kind) == ActionSafetyLevel::HighRisk,
        moves_or_stops_processes(kind) ==> risk_rank(safety_level_of(other)) <= risk_rank(safety_level_of(kind)),
        safety_level_of(other) == ActionSafetyLevel::ReadOnly <==> (other is ObserveOnly || other is WorkloadClassifyRecommend),
{
}

/// Map an action kind to the safety level used for governance.
pub fn safety_level_for_kind(kind: &ActionKind) -> (l: ActionSafetyLevel)
    ensures
        l == safety_level_of(*kind),
        moves_or_stops_processes(*kind) ==> l == ActionSafetyLevel::HighRisk,
{
    match kind {
        ActionKind::LaunchApplication { .. } => ActionSafetyLevel::MediumRisk,
        ActionKind::OpenUrl { .. } => ActionSafetyLevel::LowRisk,
        ActionKind::RunCommand { .. } => ActionSafetyLevel::HighRisk,
        ActionKind::CreateDirectory { .. } => ActionSafetyLevel::MediumRisk,
        ActionKind::OpenFile { .. } => ActionSafetyLevel::LowRisk,
        ActionKind::CloneRepository { .. } => ActionSafetyLevel::MediumRisk,
        ActionKind::CreateProjectWorkspace { .. } => ActionSafetyLevel::LowRisk,
        ActionKind::CgroupCreate { .. } => ActionSafetyLevel::MediumRisk,
        ActionKind::CgroupSetCpuMax { .. } => ActionSafetyLevel::MediumRisk,
        ActionKind::CgroupSetCpuWeight { .. } => ActionSafetyLevel::MediumRisk,
        ActionKind::CgroupSetMemoryMax { .. } => ActionSafetyLevel::MediumRisk,
        ActionKind::CgroupMovePid { .. } => ActionSafetyLevel::HighRisk,
        ActionKind::ProcessFreezeGroup { .. } => ActionSafetyLevel::HighRisk,
        ActionKind::ProcessThawGroup { .. } => ActionSafetyLevel::HighRisk,
        ActionKind::ProcessTerminateGroup { .. } => ActionSafetyLevel::HighRisk,
        ActionKind::WorkloadClassifyRecommend { .. } => ActionSafetyLevel::ReadOnly,
        ActionKind::ObserveOnly => ActionSafetyLevel::ReadOnly,
    }
}

/// `p` is the proposal that `agent` makes for `node`, with proposal id number `seq`:
/// the node's id and kind, the kind's safety level, confidence 0.9, based on the
/// observation `"action-proposal-agent"`, and rationale
/// `"action from plan step <step>: <kind>"`.
pub open spec fn is_node_proposal(p: Proposal, agent: AgentId, node: ActionNode, seq: u64) -> bool {
    &&& p.id@ == "ProposalId-"@ + decimal(seq as nat)
    &&& p.agent_id == agent
    &&& crate::clock::is_timestamp(p.created_at@)
    &&& p.based_on@.len() == 1
    &&& p.based_on@[0]@ == "action-proposal-agent"@
    &&& p.requested_action.id == node.id
    &&& p.requested_action.kind == node.kind
    &&& p.requested_action.safety_level == safety_level_of(node.kind)
    &&& p.rationale@ == "action from plan step "@ + decimal(node.metadata.source_step as nat) + ": "@
        + kind_text(node.kind)
    &&& p.confidence == Confidence(PLAN_CONFIDENCE_BITS)
}


/// `ps` are the proposals for `nodes`, one per node and in node order, drawing proposal
/// ids in sequence from `start`.
pub open spec fn proposals_for(ps: Seq<Proposal>, agent: AgentId, nodes: Seq<ActionNode>, start: u64) -> bool {
    &&& ps.len() == nodes.len()
    &&& forall|i: int| 0 <= i < nodes.len() ==> is_node_proposal(#[trigger] ps[i], agent, nodes[i], sequence_after(start, i as nat))
}

/// Converts action graphs into proposals. Purely advisory: every proposal must still
/// pass policy and safety before anything executes.
#[derive(Debug)]
pub struct ActionProposalAgent {
    agent_id: AgentId,
}

impl ActionProposalAgent {
    pub fn new(agent_id: AgentId) -> (a: Self)
        ensures
            a.agent() == agent_id,
    {
        ActionProposalAgent { agent_id }
    }

    pub closed spec fn agent(&self) -> AgentId {
        self.agent_id
    }

    fn node_to_proposal(&self, node: &ActionNode, ids: &mut IdSource) -> (p: Proposal)
        ensures
            is_node_proposal(p, self.agent(), *node, old(ids).proposal),
            *final(ids) == (IdSource { proposal: next_sequence(old(ids).proposal), ..*old(ids) }),
    {
        let safety_level = safety_level_for_kind(&node.kind);
        let id = ids.next_proposal_id();
        let mut rationale = String::new();
        rationale.append("action from plan step ");
        push_decimal(&mut rationale, node.metadata.source_step as u64);
        rationale.append(": ");
        push_kind_text(&mut rationale, &node.kind);
        let mut based_on: Vec<ObservationId> = Vec::new();
        based_on.push(ObservationId::from_string("action-proposal-agent"));
        Proposal {
            id,
            agent_id: self.agent_id.clone(),
            created_at: now_utc(),
            based_on,
            requested_action: ActionRequest {
                id: node.id.clone(),
                kind: node.kind.clone(),
                safety_level,
            },
            rationale,
            confidence: Confidence(PLAN_CONFIDENCE_BITS),
        }
    }

    /// One proposal per node of `nodes`, in order (for example only the nodes whose
    /// prerequisites are satisfied).
    pub fn propose_nodes(&self, nodes: &[ActionNode], ids: &mut IdSource) -> (ps: Vec<Proposal>)
        ensures
            proposals_for(ps@, self.agent(), nodes@, old(ids).proposal),
            *final(ids) == (IdSource { proposal: sequence_after(old(ids).proposal, nodes@.len()), ..*old(ids) }),
    {
        let mut ps: Vec<Proposal> = Vec::new();
        let mut i: usize = 0;
        let ghost start = ids.proposal;
        while i < nodes.len()
            invariant
                i <= nodes@.len(),
                ps@.len() == i,
                forall|k: int| 0 <= k < i ==> is_node_proposal(#[trigger] ps@[k], self.agent(), nodes@[k], sequence_after(start, k as nat)),
                *ids == (IdSource { proposal: sequence_after(start, i as nat), ..*old(ids) }),
            decreases nodes.len() - i,
        {
            let p = self.node_to_proposal(&nodes[i], ids);
            ps.push(p);
            i = i + 1;
        }
        ps
    }

    /// One proposal per node of the graph, in node order.
    pub fn propose(&self, graph: &ActionGraph, ids: &mut IdSource) -> (ps: Vec<Proposal>)
        ensures
            proposals_for(ps@, self.agent(), graph.nodes@, old(ids).proposal),
            *final(ids) == (IdSource { proposal: sequence_after(old(ids).proposal, graph.nodes@.len()), ..*old(ids) }),
    {
        self.propose_nodes(graph.nodes.as_slice(), ids)
    }
}

/// The proposals made for a plan's nodes carry distinct proposal ids (for fewer than
/// 2^64 nodes).
pub proof fn lemma_plan_proposal_ids_distinct(
    ps: Seq<Proposal>,
    agent: AgentId,
    nodes: Seq<ActionNode>,
    start: u64,
    i: int,
    j: int,
)
    requires
        proposals_for(ps, agent, nodes, start),
        0 <= i < j < ps.len(),
        ps.len() <= u64::MAX,
    ensures
        ps[i].id@ != ps[j].id@,
{
    assert(is_node_proposal(ps[i], agent, nodes[i], sequence_after(start, i as nat)));
    assert(is_node_proposal(ps[j], agent, nodes[j], sequence_after(start, j as nat)));
    crate::ids::lemma_fresh_ids_distinct("ProposalId-"@, start, i as nat, j as nat);
}

} // verus!
