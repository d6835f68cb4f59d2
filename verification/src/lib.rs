//! Verified core of the AgenticOS policy plane.
pub mod text;
pub mod ids;
pub mod clock;
pub mod domain;
pub mod application;
pub mod executor;
pub mod agents;
pub mod bus;
pub mod bench;
pub mod config;
pub mod console;
pub mod table;
pub mod inspect;
pub mod payload;
pub mod daemon;
pub mod daemon_tick;
pub mod pipeline;
pub mod experiment;
pub mod execute_session;
pub mod scenarios;
