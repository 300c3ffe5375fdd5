//! A minimal two-agent concurrent execution harness.
//!
//! A host program implements the [`Controller`] and [`Simulator`] contracts
//! on its own types, wires them together with [`message`] queues and
//! [`Shared`] state handles, and hands both to a [`MultiAgentEngine`], which
//! runs them concurrently and reports the first failure of either side.

mod agent;
mod engine;
mod error;
pub mod message;
mod shared;

pub use agent::Controller;
pub use agent::Simulator;
pub use engine::first_error;
pub use engine::lemma_controller_failure_takes_precedence;
pub use engine::lemma_fault_distinct_from_reported_failure;
pub use engine::lemma_success_iff_both_succeed;
pub use engine::resolve_outcomes;
pub use engine::AgentOutcome;
pub use engine::MultiAgentEngine;
pub use error::Error;
pub use shared::Shared;
