//! The agent abstraction: agents observe and propose, they never act.
use vstd::prelude::*;
use crate::domain::event::Incident;
use crate::domain::observation::Observation;
use crate::domain::proposal::Proposal;
use crate::ids::{AgentId, IdSource};

verus! {

/// An advisory agent. Agents examine observations and return proposals and incidents;
/// they hold no authority to act.
pub trait Agent: Sized {
    fn id(&self) -> AgentId;

    fn kind(&self) -> AgentKind;

    fn capabilities(&self) -> CapabilitySet;

    /// Zero or more proposals derived from `observations` (fresh identifiers come from `ids`); none unless the agent
    /// overrides this.
    fn propose(&mut self, observations: &[Observation], ids: &mut IdSource) -> (ps: Vec<Proposal>)
        default_ensures
            ps@.len() == 0,
            *final(self) == *old(self),
            *final(ids) == *old(ids),
    {
        Vec::new()
    }

    /// Zero or more incidents derived from `observations`; none unless the agent
    /// overrides this. Incidents are governance events and never trigger actions.
    fn collect_incidents(&mut self, observations: &[Observation], ids: &mut IdSource) -> (incs: Vec<Incident>)
        default_ensures
            incs@.len() == 0,
            *final(self) == *old(self),
            *final(ids) == *old(ids),
    {
        Vec::new()
    }
}

#[derive(Debug, PartialEq, Eq)]
pub enum AgentKind {
    Supervisor,
    Memory,
    Process,
    Security,
    File,
    Device,
    Network,
    Benchmark,
    Custom(String),
}

/// What an agent is allowed to do.
#[derive(Debug, PartialEq, Eq)]
pub struct CapabilitySet {
    pub capabilities: Vec<Capability>,
}

impl Default for CapabilitySet {
    /// The empty capability set.
    fn default() -> (s: Self)
        ensures
            s.capabilities@.len() == 0,
    {
        CapabilitySet { capabilities: Vec::new() }
    }
}

#[derive(Debug, PartialEq, Eq)]
pub struct Capability {
    pub name: String,
    pub scope: CapabilityScope,
}

#[derive(Clone, Copy, Debug, PartialEq, Eq, Structural)]
pub enum CapabilityScope {
    ReadOnly,
    ProposalOnly,
    ApprovedAction,
}

impl Clone for AgentKind {
    fn clone(&self) -> (r: Self)
        ensures
            r == *self,
    {
        match self {
            AgentKind::Supervisor => AgentKind::Supervisor,
            AgentKind::Memory => AgentKind::Memory,
            AgentKind::Process => AgentKind::Process,
            AgentKind::Security => AgentKind::Security,
            AgentKind::File => AgentKind::File,
            AgentKind::Device => AgentKind::Device,
            AgentKind::Network => AgentKind::Network,
            AgentKind::Benchmark => AgentKind::Benchmark,
            AgentKind::Custom(name) => AgentKind::Custom(name.clone()),
        }
    }
}

impl Clone for Capability {
    fn clone(&self) -> (r: Self)
        ensures
            r == *self,
    {
        Capability { name: self.name.clone(), scope: self.scope }
    }
}

impl Clone for CapabilitySet {
    fn clone(&self) -> (r: Self)
        ensures
            r.capabilities@ == self.capabilities@,
    {
        let capabilities = self.capabilities.clone();
        proof {
            assert(capabilities@ =~= self.capabilities@);
        }
        CapabilitySet { capabilities }
    }
}

} // verus!
