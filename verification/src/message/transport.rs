use crossbeam_channel::Receiver as ChannelReceiver;
use crossbeam_channel::Sender as ChannelSender;
use vstd::prelude::*;

verus! {

#[verifier::external_type_specification]
#[verifier::external_body]
#[verifier::reject_recursive_types(T)]
pub struct ExTransportSender<T>(ChannelSender<T>);

#[verifier::external_type_specification]
#[verifier::external_body]
#[verifier::reject_recursive_types(T)]
pub struct ExTransportReceiver<T>(ChannelReceiver<T>);

/// Relies on crossbeam_channel::unbounded: returns a linked sender/receiver
/// pair for a fresh channel with no capacity bound, so a send on it never
/// blocks.
#[verifier::external_body]
pub(crate) fn transport_pair<T>() -> (ChannelSender<T>, ChannelReceiver<T>) {
    crossbeam_channel::unbounded()
}

/// Relies on crossbeam_channel::Sender::send: appends one message at the
/// channel's tail and never blocks on an unbounded channel. The call fails
/// only when every receiver has been dropped; the message is then discarded,
/// matching the queue contract that an enqueue surfaces no failure.
#[verifier::external_body]
pub(crate) fn transport_send<T>(sender: &ChannelSender<T>, message: T) {
    let _ = sender.send(message);
}

/// Relies on crossbeam_channel::Receiver::recv: blocks until a message is
/// available and hands it out, or returns `None` exactly when the channel is
/// empty and every sender for it has been dropped.
#[verifier::external_body]
pub(crate) fn transport_recv<T>(receiver: &ChannelReceiver<T>) -> (r: Option<T>) {
    receiver.recv().ok()
}

/// Relies on crossbeam_channel::Receiver::try_recv: removes and hands out
/// one buffered message without blocking, or returns `None` when the channel
/// holds none (whether or not senders remain).
#[verifier::external_body]
pub(crate) fn transport_try_recv<T>(receiver: &ChannelReceiver<T>) -> (r: Option<T>) {
    receiver.try_recv().ok()
}

/// Relies on crossbeam_channel::Receiver::len: the number of messages
/// buffered in the channel at the moment of the call. Senders and other
/// receiver handles running concurrently may change the count at any time
/// after it is taken.
#[verifier::external_body]
pub(crate) fn transport_len<T>(receiver: &ChannelReceiver<T>) -> (r: usize) {
    receiver.len()
}

/// Relies on crossbeam_channel::Sender::clone: the returned sender is
/// another handle to the same channel, not a new channel.
#[verifier::external_body]
pub(crate) fn transport_sender_clone<T>(
    sender: &ChannelSender<T>,
) -> ChannelSender<T> {
    sender.clone()
}

/// Relies on crossbeam_channel::Receiver::clone: the returned receiver is
/// another handle to the same channel, not a new channel.
#[verifier::external_body]
pub(crate) fn transport_receiver_clone<T>(
    receiver: &ChannelReceiver<T>,
) -> ChannelReceiver<T> {
    receiver.clone()
}

} // verus!
