use crate::message::receiver::Receiver;
use crate::message::sender::Sender;
use crate::message::transport::transport_pair;
use core::fmt::Debug;
use vstd::prelude::*;

verus! {

/// One message queue: exactly one underlying unbounded transport together
/// with its canonical [`Sender`] and canonical [`Receiver`].
///
/// The queue lives as long as any sender or receiver handle for its
/// transport; the backing storage is released once the last handle is
/// dropped.
#[verifier::reject_recursive_types(T)]
pub struct Queue<T>
    where T: Debug + Clone,
{
    sender: Sender<T>,
    receiver: Receiver<T>,
}

impl<T> Default for Queue<T>
    where T: Debug + Clone,
{
    /// A fresh queue over a fresh transport, disjoint from every existing
    /// one.
    fn default() -> Self {
        let (sender, receiver) = Queue::<T>::channel();
        Queue { sender, receiver }
    }
}

impl<T> Queue<T>
    where T: Debug + Clone,
{
    /// The canonical sender and the canonical receiver are the two halves
    /// of one connected transport.
    #[verifier::type_invariant]
    spec fn connected_pair(self) -> bool {
        self.sender.transport_id() == self.receiver.transport_id()
    }

    /// Names the one transport this queue owns.
    pub closed spec fn transport_id(&self) -> int {
        self.sender.transport_id()
    }

    /// Creates one fresh, unbounded transport and returns a linked
    /// sender/receiver pair for it: both halves of one channel, so every
    /// message the sender enqueues is what the receiver drains.
    pub fn channel() -> (r: (Sender<T>, Receiver<T>))
        ensures
            r.0.transport_id() == r.1.transport_id(),
    {
        let transport: Ghost<int> = Ghost(arbitrary());
        let (sender, receiver) = transport_pair();
        (Sender::from_transport(sender, transport), Receiver::from_transport(receiver, transport))
    }

    /// A fresh queue over a fresh transport.
    pub fn new() -> Self {
        Self::default()
    }

    /// Another handle to this queue's canonical sender.
    pub fn sender(&self) -> (r: Sender<T>)
        ensures
            r.transport_id() == self.transport_id(),
    {
        self.sender.clone()
    }

    /// Another handle to this queue's canonical receiver.
    pub fn receiver(&self) -> (r: Receiver<T>)
        ensures
            r.transport_id() == self.transport_id(),
    {
        proof {
            use_type_invariant(self);
        }
        self.receiver.clone()
    }
}

} // verus!
