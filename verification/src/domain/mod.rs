//! Core entities of the policy plane: actions, agents, decisions, events,
//! observations, plans, proposals and recommendations.
pub mod action;
pub mod action_graph;
pub mod number;
pub mod observation;
pub mod proposal;
pub mod decision;
pub mod event;
pub mod recommendation;
pub mod text_map;
pub mod plan;
pub mod intent;
pub mod workload;
pub mod agent;
pub mod error;
pub mod metrics;
pub mod render;
