//! The bounded hand-off queue between producers and the worker.
//!
//! The queue is a `crossbeam_channel` bounded channel.  Its state is shared
//! between threads, so nothing here says what a send or a receive will find:
//! the functions map the channel's answers to the library's own types.

use vstd::prelude::*;
use crossbeam_channel::{Receiver, Sender, TrySendError};
use crate::message::MarketMessage;

verus! {

/// The sending half of a `crossbeam_channel` channel.
#[verifier::external_type_specification]
#[verifier::external_body]
#[verifier::reject_recursive_types(T)]
pub struct ExSender<T>(Sender<T>);

/// The receiving half of a `crossbeam_channel` channel.
#[verifier::external_type_specification]
#[verifier::external_body]
#[verifier::reject_recursive_types(T)]
pub struct ExReceiver<T>(Receiver<T>);

/// Why an event was not accepted into the queue.
#[derive(Debug, Clone, Copy, PartialEq, Eq, Structural)]
pub enum Error {
    /// The queue holds as many events as its capacity allows.
    QueueFull,
    /// The receiving side of the queue is gone.
    QueueClosed,
}

impl Error {
    /// The text that describes the error.
    pub open spec fn spec_message(self) -> Seq<char> {
        match self {
            Error::QueueFull => "sending on a full channel"@,
            Error::QueueClosed => "sending on a disconnected channel"@,
        }
    }

    /// A description of the error for people to read.
    pub fn message(&self) -> (text: String)
        ensures
            text@ == self.spec_message(),
    {
        match self {
            Error::QueueFull => "sending on a full channel".to_owned(),
            Error::QueueClosed => "sending on a disconnected channel".to_owned(),
        }
    }
}

/// Largest capacity a queue can be built with.  The queue's slots are
/// allocated when it is built.
pub const MAX_QUEUE_CAPACITY: usize = 1_048_576;

/// The capacity that the channel behind `sender` was created with.
pub uninterp spec fn queue_capacity(sender: Sender<MarketMessage>) -> usize;

/// Calls `crossbeam_channel::bounded`.  Trusted: the channel it returns has
/// the capacity asked for.  `bounded` panics where the capacity is too large
/// for its index arithmetic or its allocation; the bound keeps clear of both.
#[verifier::external_body]
pub(crate) fn bounded_queue(capacity: usize) -> (ends: (
    Sender<MarketMessage>,
    Receiver<MarketMessage>,
))
    requires
        0 < capacity <= MAX_QUEUE_CAPACITY,
    ensures
        queue_capacity(ends.0) == capacity,
{
    crossbeam_channel::bounded(capacity)
}

/// How the queue answered an offer that does not wait.
#[derive(Debug, Clone, Copy, PartialEq, Eq, Structural)]
pub enum Delivery {
    /// The event is in the queue.
    Accepted,
    /// The queue had no free slot.
    Full,
    /// Nothing can receive from the queue any more.
    Disconnected,
}

/// What a producer is told for each answer of the queue.
pub open spec fn submission_of(delivery: Delivery) -> Result<(), Error> {
    match delivery {
        Delivery::Accepted => Ok(()),
        Delivery::Full => Err(Error::QueueFull),
        Delivery::Disconnected => Err(Error::QueueClosed),
    }
}

/// Turns the queue's answer into the result of a submission: success where
/// the event was accepted, `QueueFull` or `QueueClosed` where it was not.
pub fn submission_result(delivery: Delivery) -> (accepted: Result<(), Error>)
    ensures
        accepted == submission_of(delivery),
{
    match delivery {
        Delivery::Accepted => Ok(()),
        Delivery::Full => Err(Error::QueueFull),
        Delivery::Disconnected => Err(Error::QueueClosed),
    }
}

/// Calls `Sender::try_send`, which never blocks.  Trusted: nothing is claimed
/// of the answer, which depends on what the queue holds at that moment; the
/// channel's success and its two errors become the three answers.
#[verifier::external_body]
pub(crate) fn try_send_message(sender: &Sender<MarketMessage>, message: MarketMessage) -> (delivery:
    Delivery) {
    match sender.try_send(message) {
        Ok(()) => Delivery::Accepted,
        Err(TrySendError::Full(_)) => Delivery::Full,
        Err(TrySendError::Disconnected(_)) => Delivery::Disconnected,
    }
}

/// Calls `Receiver::recv`, which waits while the queue is empty and some
/// sender is alive.  Trusted: nothing is claimed of the answer; `None` stands
/// for the channel's answer that the queue is empty and every sender is gone.
#[verifier::external_body]
pub(crate) fn receive_message(receiver: &Receiver<MarketMessage>) -> (next: Option<MarketMessage>) {
    match receiver.recv() {
        Ok(message) => Some(message),
        Err(_) => None,
    }
}

/// Calls `Sender::clone`.  Trusted: the new handle sends into the same
/// channel, so the capacity is the same.
#[verifier::external_body]
pub(crate) fn another_sender(sender: &Sender<MarketMessage>) -> (handle: Sender<MarketMessage>)
    ensures
        queue_capacity(handle) == queue_capacity(*sender),
{
    sender.clone()
}

/// Calls `Receiver::clone`.  Trusted: nothing is claimed of the new handle.
#[verifier::external_body]
pub(crate) fn another_receiver(receiver: &Receiver<MarketMessage>) -> (handle: Receiver<
    MarketMessage,
>) {
    receiver.clone()
}

} // verus!
