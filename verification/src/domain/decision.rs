//! Decisions of the policy kernel.
use vstd::prelude::*;
use crate::ids::{AgentId, DecisionId, ProposalId};

verus! {

/// The policy kernel's verdict on one proposal.
#[derive(Debug)]
pub struct Decision {
    pub id: DecisionId,
    pub proposal_id: ProposalId,
    pub decided_at: String,
    pub decided_by: AgentId,
    pub outcome: DecisionOutcome,
    pub explanation: String,
}

impl Clone for Decision {
    fn clone(&self) -> (r: Self)
        ensures
            r == *self,
    {
        Decision {
            id: self.id.clone(),
            proposal_id: self.proposal_id.clone(),
            decided_at: self.decided_at.clone(),
            decided_by: self.decided_by.clone(),
            outcome: self.outcome,
            explanation: self.explanation.clone(),
        }
    }
}

#[derive(Clone, Copy, Debug, PartialEq, Eq, Structural)]
pub enum DecisionOutcome {
    Approved,
    Denied { reason: DenialReason },
    RequiresApproval,
}

#[derive(Clone, Copy, Debug, PartialEq, Eq, Structural)]
pub enum DenialReason {
    MissingCapability,
    BudgetExceeded,
    InvariantViolation,
    UnsafeAction,
    MalformedProposal,
    Unknown,
}

} // verus!
