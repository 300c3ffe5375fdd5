use crate::error::Error;
use vstd::prelude::*;

verus! {

/// The controller role: an entity that, given ownership of its inputs
/// (shared state handles, a sender of its outbound messages, a receiver of
/// the simulator's messages), runs to completion and yields success or a
/// failure.
///
/// `run` consumes the agent and performs its entire work — its own loop,
/// cadence, and termination policy. The engine never interrupts this call:
/// termination is the agent's own responsibility, for instance a fixed
/// iteration count or a sentinel message exchanged over the queues.
pub trait Controller: Sized {
    fn run(self) -> Result<(), Error>;
}

/// The simulator role, identical in shape to [`Controller`] and
/// distinguished only by its place in the engine: its thread is joined
/// after the controller's, and its failure is reported only when the
/// controller succeeded.
pub trait Simulator: Sized {
    fn run(self) -> Result<(), Error>;
}

} // verus!
