//! Agents that observe but neither propose nor raise incidents.
use vstd::prelude::*;
use crate::domain::agent::{Agent, AgentKind, CapabilitySet};
use crate::ids::AgentId;

verus! {

/// Supervises the other agents.
#[derive(Debug)]
pub struct SupervisorAgent {
    id: AgentId,
}

impl SupervisorAgent {
    pub fn new(id: AgentId) -> (a: Self)
        ensures
            a.agent() == id,
    {
        SupervisorAgent { id }
    }

    pub closed spec fn agent(&self) -> AgentId {
        self.id
    }
}

impl Agent for SupervisorAgent {
    fn id(&self) -> (r: AgentId)
        ensures
            r == self.agent(),
    {
        self.id.clone()
    }

    fn kind(&self) -> (k: AgentKind)
        ensures
            k == AgentKind::Supervisor,
    {
        AgentKind::Supervisor
    }

    fn capabilities(&self) -> (c: CapabilitySet)
        ensures
            c.capabilities@.len() == 0,
    {
        CapabilitySet::default()
    }
}

/// Watches device events.
#[derive(Debug)]
pub struct DeviceAgent {
    id: AgentId,
}

impl DeviceAgent {
    pub fn new(id: AgentId) -> (a: Self)
        ensures
            a.agent() == id,
    {
        DeviceAgent { id }
    }

    pub closed spec fn agent(&self) -> AgentId {
        self.id
    }
}

impl Agent for DeviceAgent {
    fn id(&self) -> (r: AgentId)
        ensures
            r == self.agent(),
    {
        self.id.clone()
    }

    fn kind(&self) -> (k: AgentKind)
        ensures
            k == AgentKind::Device,
    {
        AgentKind::Device
    }

    fn capabilities(&self) -> (c: CapabilitySet)
        ensures
            c.capabilities@.len() == 0,
    {
        CapabilitySet::default()
    }
}

/// Watches file-system events.
#[derive(Debug)]
pub struct FileAgent {
    id: AgentId,
}

impl FileAgent {
    pub fn new(id: AgentId) -> (a: Self)
        ensures
            a.agent() == id,
    {
        FileAgent { id }
    }

    pub closed spec fn agent(&self) -> AgentId {
        self.id
    }
}

impl Agent for FileAgent {
    fn id(&self) -> (r: AgentId)
        ensures
            r == self.agent(),
    {
        self.id.clone()
    }

    fn kind(&self) -> (k: AgentKind)
        ensures
            k == AgentKind::File,
    {
        AgentKind::File
    }

    fn capabilities(&self) -> (c: CapabilitySet)
        ensures
            c.capabilities@.len() == 0,
    {
        CapabilitySet::default()
    }
}

} // verus!
