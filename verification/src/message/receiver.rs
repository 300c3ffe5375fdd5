use crate::error::Error;
use crate::message::transport::transport_len;
use crate::message::transport::transport_receiver_clone;
use crate::message::transport::transport_recv;
use crate::message::transport::transport_try_recv;
use vstd::prelude::*;

verus! {

/// The batch-drain half of a queue.
///
/// Cloning a receiver yields another handle to the same transport; a
/// message removed through one clone is gone for all of them.
#[verifier::reject_recursive_types(T)]
pub struct Receiver<T> {
    inner: crossbeam_channel::Receiver<T>,
    transport: Ghost<int>,
}

impl<T> Receiver<T> {
    /// Names the transport this handle drains: a receiver observes exactly
    /// the messages of the senders carrying the same identifier. Ghost
    /// bookkeeping only — it tracks which handles were cloned from one
    /// connected pair, and says nothing about handles of unrelated queues.
    pub closed spec fn transport_id(&self) -> int {
        self.transport@
    }

    /// Wraps the dequeue half of one underlying transport, recorded under
    /// the given identifier.
    pub(crate) fn from_transport(
        inner: crossbeam_channel::Receiver<T>,
        transport: Ghost<int>,
    ) -> (r: Self)
        ensures
            r.transport_id() == transport@,
    {
        Receiver { inner, transport }
    }

    /// Blocks until at least one message is available, then removes and
    /// returns every message currently buffered, as one batch in enqueue
    /// order (FIFO per originating sender; across senders, arrival order at
    /// the transport).
    ///
    /// This is a batch drain, not a single-message receive: a later call
    /// starts from an empty batch again rather than replaying. The one
    /// failure it can surface is [`Error::Disconnected`], reported instead
    /// of blocking forever once every sender has been dropped and no
    /// buffered message remains.
    pub fn receive(&self) -> (r: Result<Vec<T>, Error>)
        ensures
            r matches Ok(batch) ==> batch@.len() >= 1,
            r matches Err(e) ==> e == Error::Disconnected,
    {
        match transport_recv(&self.inner) {
            None => Err(Error::Disconnected),
            Some(first) => {
                let mut batch: Vec<T> = Vec::new();
                batch.push(first);
                let buffered: usize = transport_len(&self.inner);
                let mut taken: usize = 0;
                let mut more: bool = true;
                while more && taken < buffered
                    invariant
                        batch@.len() >= 1,
                        taken <= buffered,
                    decreases buffered - taken,
                {
                    match transport_try_recv(&self.inner) {
                        Some(message) => batch.push(message),
                        None => more = false,
                    }
                    taken = taken + 1;
                }
                Ok(batch)
            },
        }
    }
}

impl<T> Clone for Receiver<T> {
    /// Another handle to the same transport, not a new queue.
    fn clone(&self) -> (r: Self)
        ensures
            r.transport_id() == self.transport_id(),
    {
        Receiver { inner: transport_receiver_clone(&self.inner), transport: self.transport }
    }
}

} // verus!
