//! Orchestration of callout scripts around the lifecycle actions of mediated
//! devices: which script is run for which event, what its exit status means,
//! and how the outcome of each phase shapes the next.

pub mod callouts;
pub mod error;
pub mod json;
pub mod laws;
pub mod model;
pub mod order;
pub mod query;
pub mod script;
pub mod tokens;
