use vstd::prelude::*;

verus! {

/// The failures this runtime can report.
///
/// The engine never suppresses a failure: both agent threads are always
/// joined, and the first error in the fixed priority order (controller's
/// fault, then controller's returned failure, then simulator's fault, then
/// simulator's returned failure) is handed to the caller.
#[derive(Debug, PartialEq, Eq)]
pub enum Error {
    /// An agent's run returned normally but reported a failure, carrying the
    /// agent's own description of what went wrong.
    Agent(String),
    /// An agent's thread terminated abnormally (an unrecoverable internal
    /// fault) instead of returning a value. Distinct from a failure the
    /// agent reported itself; the fault's payload is not preserved.
    Fault,
    /// A receive observed that every sender for its queue has been dropped
    /// and no buffered message remains.
    Disconnected,
}

} // verus!
