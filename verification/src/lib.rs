//! Verified core of the ГОВНО pub/sub system: wire types, the orchestrator's
//! registry and routing rules, the worker's reconnect and emit decisions, the
//! legacy single-process server, and the browser client's state machine.

pub mod proto;
pub mod text;
mod random;
pub mod worker;
pub mod wrapping;
pub mod orchestrator;
pub mod server;
pub mod client;
pub mod laws;
