//! Executors: the only components permitted to mutate operating-system state.
pub mod traits;
pub mod noop;
pub mod dry_run;
pub mod action_executor;
pub mod linux;
pub mod proc_text;
