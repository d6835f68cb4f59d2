//! Proposals: what agents ask the policy kernel to approve.
use vstd::prelude::*;
use crate::domain::action::ActionRequest;
use crate::ids::{AgentId, ObservationId, ProposalId};

verus! {

/// An agent's request for an action, with its justification.
#[derive(Debug)]
pub struct Proposal {
    pub id: ProposalId,
    pub agent_id: AgentId,
    pub created_at: String,
    pub based_on: Vec<ObservationId>,
    pub requested_action: ActionRequest,
    pub rationale: String,
    pub confidence: Confidence,
}

impl Clone for Proposal {
    fn clone(&self) -> (r: Self)
        ensures
            r.id == self.id,
            r.agent_id == self.agent_id,
            r.created_at == self.created_at,
            r.based_on@ == self.based_on@,
            r.requested_action == self.requested_action,
            r.rationale == self.rationale,
            r.confidence == self.confidence,
    {
        Proposal {
            id: self.id.clone(),
            agent_id: self.agent_id.clone(),
            created_at: self.created_at.clone(),
            based_on: self.based_on.clone(),
            requested_action: self.requested_action.clone(),
            rationale: self.rationale.clone(),
            confidence: self.confidence,
        }
    }
}

/// An agent's confidence in a proposal: a binary32 (`f32`) value carried by its
/// IEEE-754 bit pattern.
#[derive(Clone, Copy, Debug, PartialEq, Eq, Structural)]
pub struct Confidence(pub u32);

} // verus!
