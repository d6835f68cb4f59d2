//! Advisory agents: they turn observations, plans and recommendations into proposals and
//! incidents, and never act themselves.
pub mod action_proposal;
pub mod basic;
pub mod security;
pub mod recommendation_consumer;
pub mod dummy;
pub mod process;
