//! Application layer: errors, ports and use-case commands.
use vstd::prelude::*;
use crate::domain::action::{ActionResult, ApprovedAction};
use crate::domain::decision::Decision;
use crate::domain::event::{EventEnvelope, Topic};
use crate::domain::metrics::MetricCollection;
use crate::domain::observation::Observation;
use crate::domain::proposal::Proposal;
use crate::ids::AgentId;
use crate::text::concat2;

verus! {

/// An application-level failure.
#[derive(Debug)]
pub enum AppError {
    Message(String),
}

impl AppError {
    /// The error's message: `"application error: <detail>"`.
    pub fn to_message(&self) -> (s: String)
        ensures
            s@ == "application error: "@ + match self {
                AppError::Message(m) => m@,
            },
    {
        match self {
            AppError::Message(m) => concat2("application error: ", m.as_str()),
        }
    }
}

/// Publishes events and reads them back by topic.
pub trait EventBus {
    fn publish(&mut self, event: EventEnvelope) -> Result<(), AppError>;

    fn subscribe(&self, topic: Topic) -> Result<Vec<&EventEnvelope>, AppError>;
}

/// Evaluates proposals into decisions.
pub trait PolicyKernelPort {
    fn evaluate(&self, proposal: &Proposal) -> Result<Decision, AppError>;
}

/// Executes approved actions.
pub trait ActionExecutorPort {
    fn execute(&self, action: ApprovedAction) -> Result<ActionResult, AppError>;
}

/// Collects observations of system state.
pub trait ObserverPort {
    fn observe(&self) -> Result<Vec<Observation>, AppError>;
}

/// Exports metric collections.
pub trait MetricExporterPort {
    fn export(&self, collection: MetricCollection) -> Result<(), AppError>;
}

/// The health of one registered agent.
#[derive(Debug)]
pub struct AgentHealth {
    pub agent_id: AgentId,
    pub state: AgentState,
}

/// Lifecycle state of an agent.
#[derive(Clone, Copy, Debug, PartialEq, Eq, Structural)]
pub enum AgentState {
    Registered,
    Initialized,
    Observing,
    Reasoning,
    Proposing,
    AwaitingPolicyDecision,
    EvaluatingResult,
    Idle,
    Degraded,
    Terminated,
}

/// Submit a proposal to the policy kernel.
#[derive(Debug)]
pub struct SubmitProposalCommand {
    pub proposal: Proposal,
}

/// Start a registered agent.
#[derive(Debug)]
pub struct StartAgentCommand {
    pub agent_id: AgentId,
}

/// Stop a running agent.
#[derive(Debug)]
pub struct StopAgentCommand {
    pub agent_id: AgentId,
}

} // verus!
