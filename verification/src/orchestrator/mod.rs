//! The orchestrator: registry of producers, routing to consumers, metrics.
pub mod consumer;
pub mod ids;
pub mod metrics;
pub mod registry;
