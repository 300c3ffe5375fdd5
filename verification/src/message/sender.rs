use crate::message::transport::transport_send;
use crate::message::transport::transport_sender_clone;
use vstd::prelude::*;

verus! {

/// The enqueue half of a queue.
///
/// Cloning a sender yields another handle to the same transport; messages
/// enqueued through any clone reach the same buffer, and the relative order
/// of the messages of one sender handle is preserved.
#[verifier::reject_recursive_types(T)]
pub struct Sender<T> {
    inner: crossbeam_channel::Sender<T>,
    transport: Ghost<int>,
}

impl<T> Sender<T> {
    /// Names the transport this handle enqueues into: two senders with the
    /// same identifier feed the same buffer. Ghost bookkeeping only — it
    /// tracks which handles were cloned from one connected pair, and says
    /// nothing about handles of unrelated queues.
    pub closed spec fn transport_id(&self) -> int {
        self.transport@
    }

    /// Wraps the enqueue half of one underlying transport, recorded under
    /// the given identifier.
    pub(crate) fn from_transport(
        inner: crossbeam_channel::Sender<T>,
        transport: Ghost<int>,
    ) -> (r: Self)
        ensures
            r.transport_id() == transport@,
    {
        Sender { inner, transport }
    }

    /// Enqueues one message at the transport's tail.
    ///
    /// Never blocks: the transport is unbounded, so an enqueue cannot be
    /// rejected for lack of capacity, and no success/failure distinction is
    /// surfaced. Senders on other threads may enqueue concurrently; the
    /// transport itself serializes access.
    pub fn send(&self, message: T) {
        transport_send(&self.inner, message);
    }
}

impl<T> Clone for Sender<T> {
    /// Another handle to the same transport, not a new queue.
    fn clone(&self) -> (r: Self)
        ensures
            r.transport_id() == self.transport_id(),
    {
        Sender { inner: transport_sender_clone(&self.inner), transport: self.transport }
    }
}

} // verus!
