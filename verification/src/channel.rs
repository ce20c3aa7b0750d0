//! The message-passing primitives of the stream core.
//!
//! Both channels of a stream — the chunk channel towards the consumer
//! and the one-shot stop-signal channel towards the loop — are the
//! standard library's asynchronous mpsc channels.  They are declared
//! and wrapped here; everything said about them is what their
//! documentation plainly states, and all logic that depends on what a
//! channel actually yielded is verified downstream, in functions that
//! take the outcome as an argument.

use vstd::prelude::*;

use std::sync::mpsc::Receiver;
use std::sync::mpsc::Sender;

verus! {

#[verifier::external_type_specification]
#[verifier::external_body]
#[verifier::reject_recursive_types(T)]
pub struct ExSender<T>(Sender<T>);

#[verifier::external_type_specification]
#[verifier::external_body]
#[verifier::reject_recursive_types(T)]
pub struct ExReceiver<T>(Receiver<T>);

/// What one non-blocking receive attempt yielded.
#[derive(Debug)]
pub enum ChannelPoll<T> {
    /// A queued value.
    Item(T),
    /// Nothing queued; the sending half is still attached.
    Pending,
    /// Nothing queued and the sending half is gone.
    Disconnected,
}

/// Relies on std::sync::mpsc::channel: creates the connected sending
/// and receiving halves of an unbounded asynchronous channel.
#[verifier::external_body]
pub(crate) fn new_channel<T>() -> (Sender<T>, Receiver<T>) {
    std::sync::mpsc::channel()
}

/// Relies on std::sync::mpsc::Receiver::try_recv: never blocks, and
/// yields a queued value, or nothing, or reports the sender gone.
/// Which of the three comes back depends on the other thread, so
/// nothing more is stated; callers handle every outcome.
#[verifier::external_body]
pub(crate) fn try_recv<T>(receiver: &Receiver<T>) -> ChannelPoll<T> {
    match receiver.try_recv() {
        Ok(value) => ChannelPoll::Item(value),
        Err(std::sync::mpsc::TryRecvError::Empty) => ChannelPoll::Pending,
        Err(std::sync::mpsc::TryRecvError::Disconnected) => ChannelPoll::Disconnected,
    }
}

/// Relies on std::sync::mpsc::Sender::send: queues the value unless
/// the receiving half is gone, in which case the very value sent
/// comes back as the error.
#[verifier::external_body]
pub(crate) fn send<T>(sender: &Sender<T>, value: T) -> (outcome: Result<(), T>)
    ensures
        outcome matches Err(v) ==> v == value,
{
    match sender.send(value) {
        Ok(()) => Ok(()),
        Err(std::sync::mpsc::SendError(rejected)) => Err(rejected),
    }
}

} // verus!
