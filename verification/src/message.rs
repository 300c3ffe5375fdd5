//! Message queues connecting the two agents.
//!
//! A [`Queue`] owns exactly one underlying unbounded, multi-producer
//! transport and exposes one canonical [`Sender`] and one canonical
//! [`Receiver`] for it. Cloning a sender or receiver yields another handle
//! to the same transport, never a parallel queue: every message enqueued
//! through any sender handle is observable, in enqueue order relative to
//! that sender, by whichever receiver handle drains next.

mod queue;
mod receiver;
mod sender;
mod transport;

pub use queue::Queue;
pub use receiver::Receiver;
pub use sender::Sender;
