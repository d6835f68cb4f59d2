//! The in-memory event bus and trace store.
pub mod bus;
pub mod store;
pub mod port;
