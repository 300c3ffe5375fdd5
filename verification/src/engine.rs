use crate::agent::Controller;
use crate::agent::Simulator;
use crate::error::Error;
use vstd::prelude::*;

verus! {

/// How one agent's thread ended: either the agent's `run` returned a value,
/// or the thread terminated abnormally before returning one.
pub enum AgentOutcome {
    /// The agent's `run` returned normally, with this value.
    Returned(Result<(), Error>),
    /// The agent's thread raised an unrecoverable fault instead of
    /// returning.
    Faulted,
}

/// The single result the engine reports for a pair of agent outcomes: the
/// first error in the fixed priority order — the controller's fault, else
/// the controller's returned failure, else the simulator's fault, else the
/// simulator's returned failure — and success only when both agents
/// returned success.
pub open spec fn first_error(controller: AgentOutcome, simulator: AgentOutcome) -> Result<
    (),
    Error,
> {
    match controller {
        AgentOutcome::Faulted => Err(Error::Fault),
        AgentOutcome::Returned(controller_result) => match controller_result {
            Err(e) => Err(e),
            Ok(()) => match simulator {
                AgentOutcome::Faulted => Err(Error::Fault),
                AgentOutcome::Returned(simulator_result) => simulator_result,
            },
        },
    }
}

/// Picks the engine's overall result from the two agents' outcomes,
/// exactly as [`first_error`] states it.
pub fn resolve_outcomes(controller: AgentOutcome, simulator: AgentOutcome) -> (r: Result<
    (),
    Error,
>)
    ensures
        r == first_error(controller, simulator),
{
    match controller {
        AgentOutcome::Faulted => Err(Error::Fault),
        AgentOutcome::Returned(controller_result) => match controller_result {
            Err(e) => Err(e),
            Ok(()) => match simulator {
                AgentOutcome::Faulted => Err(Error::Fault),
                AgentOutcome::Returned(simulator_result) => simulator_result,
            },
        },
    }
}

/// The engine reports success exactly when both agents ran to completion
/// and both returned success: no failure of either side is ever suppressed.
pub proof fn lemma_success_iff_both_succeed(controller: AgentOutcome, simulator: AgentOutcome)
    ensures
        first_error(controller, simulator) is Ok <==> (controller == AgentOutcome::Returned(
            Ok::<(), Error>(()),
        ) && simulator == AgentOutcome::Returned(Ok::<(), Error>(()))),
{
    match controller {
        AgentOutcome::Faulted => {},
        AgentOutcome::Returned(controller_result) => match controller_result {
            Err(e) => {},
            Ok(u) => {
                assert(controller_result == Ok::<(), Error>(()));
                match simulator {
                    AgentOutcome::Faulted => {},
                    AgentOutcome::Returned(simulator_result) => match simulator_result {
                        Err(e) => {},
                        Ok(w) => {
                            assert(simulator_result == Ok::<(), Error>(()));
                        },
                    },
                }
            },
        },
    }
}

/// A failure the controller returned is the engine's result, whatever the
/// simulator's outcome was: the controller's outcome takes precedence.
pub proof fn lemma_controller_failure_takes_precedence(e: Error, simulator: AgentOutcome)
    ensures
        first_error(AgentOutcome::Returned(Err(e)), simulator) == Err::<(), Error>(e),
{
}

/// An agent execution fault is reported as [`Error::Fault`], which no
/// agent-reported failure equals: a caller can always tell a thread that
/// died from an agent that returned a failure of its own.
pub proof fn lemma_fault_distinct_from_reported_failure(description: String)
    ensures
        Error::Fault != Error::Agent(description),
        first_error(AgentOutcome::Faulted, AgentOutcome::Returned(Ok::<(), Error>(())))
            != Err::<(), Error>(Error::Agent(description)),
{
}

/// The two-agent orchestrator.
///
/// Holds one [`Controller`]-conforming instance and one
/// [`Simulator`]-conforming instance until [`run`](Self::run) consumes
/// both. Both instances must be transferable to another thread and carry no
/// borrowed references back to the assembling scope.
pub struct MultiAgentEngine<C, S> where C: Controller, S: Simulator {
    controller: C,
    simulator: S,
}

/// Relies on crossbeam_utils::thread::scope and Scope::spawn/join: each
/// agent runs on its own thread; the controller's thread is joined first,
/// then the simulator's, and a thread whose code raised an unrecoverable
/// fault instead of returning reports `AgentOutcome::Faulted`. Both threads
/// are always joined before the call returns.
#[verifier::external_body]
fn run_both<C, S>(controller: C, simulator: S) -> (r: (AgentOutcome, AgentOutcome)) where
    C: Controller + Send,
    S: Simulator + Send,
{
    crossbeam_utils::thread::scope(|scope| {
        let controller_handle = scope.spawn(move |_| controller.run());
        let simulator_handle = scope.spawn(move |_| simulator.run());
        let c = match controller_handle.join() {
            Ok(v) => AgentOutcome::Returned(v),
            Err(_) => AgentOutcome::Faulted,
        };
        let s = match simulator_handle.join() {
            Ok(v) => AgentOutcome::Returned(v),
            Err(_) => AgentOutcome::Faulted,
        };
        (c, s)
    }).unwrap_or((AgentOutcome::Faulted, AgentOutcome::Faulted))
}

impl<C, S> MultiAgentEngine<C, S> where
    C: Controller + Send + 'static,
    S: Simulator + Send + 'static,
{
    /// The controller instance held until `run` consumes it.
    pub closed spec fn controller(&self) -> C {
        self.controller
    }

    /// The simulator instance held until `run` consumes it.
    pub closed spec fn simulator(&self) -> S {
        self.simulator
    }

    /// Stores both agent instances, ready to be run.
    pub fn new(controller: C, simulator: S) -> (r: Self)
        ensures
            r.controller() == controller,
            r.simulator() == simulator,
    {
        Self { controller, simulator }
    }

    /// Runs both agents to completion, concurrently, each on its own
    /// thread, and reports the first failure of either side.
    ///
    /// Both threads are always joined — the controller's first, then the
    /// simulator's — even when one of them fails early; the engine never
    /// cancels the other agent. The overall result is
    /// [`first_error`] of the two outcomes: the controller's fault, else
    /// the controller's returned failure, else the simulator's fault, else
    /// the simulator's returned failure, else success. A hung agent hangs
    /// this call: the engine has no cancellation or timeout mechanism, so
    /// termination is each agent's own responsibility.
    pub fn run(self) -> (r: Result<(), Error>) {
        let (controller_outcome, simulator_outcome) = run_both(self.controller, self.simulator);
        resolve_outcomes(controller_outcome, simulator_outcome)
    }
}

} // verus!
