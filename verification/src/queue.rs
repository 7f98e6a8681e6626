//! The queue of events between the ingestion side and the delivery loop.
//!
//! It is an unbounded channel of the `crossbeam` crate: any number of
//! producers, one consumer, first in, first out. What a poll finds depends on
//! what other threads have done, so the contracts here promise nothing about
//! it; the order and the absence of blocking are the channel's own.

use crate::dispatch::LoopEvent;
use crate::ingest::{accept_body, accepted};
use crossbeam::channel::{Receiver, Sender};
use vstd::prelude::*;

verus! {

#[verifier::external_type_specification]
#[verifier::external_body]
#[verifier::reject_recursive_types(T)]
pub struct ExSender<T>(crossbeam::channel::Sender<T>);

#[verifier::external_type_specification]
#[verifier::external_body]
#[verifier::reject_recursive_types(T)]
pub struct ExReceiver<T>(crossbeam::channel::Receiver<T>);

/// Calls `crossbeam::channel::unbounded`. Nothing is taken on trust about the
/// two ends.
#[verifier::external_body]
fn unbounded_channel() -> (ends: (Sender<String>, Receiver<String>)) {
    crossbeam::channel::unbounded()
}

/// Calls `Sender::send` and says whether the channel took the text: the call
/// fails when the receiving end is gone. On a channel without bound it does
/// not wait. Nothing is taken on trust about the result.
#[verifier::external_body]
fn send(sender: &Sender<String>, event: String) -> (taken: bool) {
    sender.send(event).is_ok()
}

/// Calls `Sender::clone`. Taken on trust: the clone is the same sending end
/// once more, a handle on the very channel that the given end belongs to.
#[verifier::external_body]
fn another_sender(sender: &Sender<String>) -> (other: Sender<String>)
    ensures
        other == *sender,
{
    sender.clone()
}

/// Calls `Receiver::try_recv`, which does not wait, and drops the error: the
/// oldest text in the channel, or `None` where there is none at the moment.
/// Nothing is taken on trust about the result, which depends on what other
/// threads have sent.
#[verifier::external_body]
fn try_receive(receiver: &Receiver<String>) -> (event: Option<String>) {
    receiver.try_recv().ok()
}

/// What became of a request body that was submitted to the queue.
#[derive(Debug, Clone, Copy, PartialEq, Eq, Structural)]
pub enum Submission {
    /// The body was accepted and its event is in the queue.
    Enqueued,
    /// The body was not acceptable; nothing was enqueued.
    Rejected,
    /// The body was accepted, but the delivery loop is gone.
    Closed,
}

/// A producing end of the queue. There may be any number of them.
pub struct EventProducer {
    sender: Sender<String>,
}

/// The consuming end of the queue. There is one.
pub struct EventConsumer {
    receiver: Receiver<String>,
}

/// A new, empty queue of events: a producing end and the consuming end.
pub fn event_queue() -> (ends: (EventProducer, EventConsumer)) {
    let (sender, receiver) = unbounded_channel();
    (EventProducer { sender }, EventConsumer { receiver })
}

impl EventProducer {
    /// One more producing end of the same queue: an end equal to this one, so
    /// that what is enqueued through either goes to the one consumer.
    pub fn another(&self) -> (other: EventProducer)
        ensures
            other == *self,
    {
        EventProducer { sender: another_sender(&self.sender) }
    }

    /// Puts an event text at the end of the queue, without waiting for the
    /// consumer. Returns `false` where the consuming end is gone.
    pub fn enqueue(&self, event: String) -> (taken: bool) {
        send(&self.sender, event)
    }

    /// Takes the body of an inbound request: an acceptable body is turned into
    /// its event text and enqueued, any other is rejected.
    pub fn submit(&self, body: &[u8]) -> (submission: Submission)
        ensures
            (submission == Submission::Rejected) == accepted(body@).is_none(),
    {
        match accept_body(body) {
            Some(event) => if self.enqueue(event) {
                Submission::Enqueued
            } else {
                Submission::Closed
            },
            None => Submission::Rejected,
        }
    }
}

impl EventConsumer {
    /// Takes the oldest event text from the queue, if there is one, without
    /// waiting.
    pub fn try_dequeue(&self) -> (event: Option<String>) {
        try_receive(&self.receiver)
    }

    /// Polls the queue and reports what was found, as the delivery loop wants
    /// it.
    pub fn poll(&self) -> (event: LoopEvent)
        ensures
            event is Polled,
    {
        LoopEvent::Polled(self.try_dequeue())
    }
}

} // verus!
