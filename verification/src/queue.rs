//! The in-process queues that connect channel ends to their workers.
//!
//! Three shapes are used: the send queue that carries pending sends from a
//! [`crate::Sender`] to the outbound worker, the receive queue that carries
//! decoded values (or errors) from the inbound worker to a
//! [`crate::Receiver`], and the one-shot result cell that reports a single
//! send's outcome.  All three ride on `std::sync::mpsc` channels; the calls
//! into that module are the trusted edge of this file.
//!
//! What a queue hands over depends on scheduling, so the contracts here state
//! only what holds of every outcome; ownership does the rest: a one-shot's
//! writing half is consumed by fulfilling it, so it is fulfilled at most
//! once, and its reading half is consumed by waiting on it, so the outcome
//! is observed at most once.

use vstd::prelude::*;

use crate::SenderError;

verus! {

#[verifier::external_type_specification]
#[verifier::external_body]
#[verifier::reject_recursive_types(T)]
pub struct ExMpscSender<T>(std::sync::mpsc::Sender<T>);

#[verifier::external_type_specification]
#[verifier::external_body]
#[verifier::reject_recursive_types(T)]
pub struct ExMpscReceiver<T>(std::sync::mpsc::Receiver<T>);

/// Relies on `std::sync::mpsc::Sender::clone`: another handle on the same
/// queue.  Where the clone's sends end up is a property of the shared
/// queue, not of the returned value, so nothing is stated here.
pub assume_specification<T>[ <std::sync::mpsc::Sender<T> as Clone>::clone ](
    s: &std::sync::mpsc::Sender<T>,
) -> std::sync::mpsc::Sender<T>;

/// Relies on `std::sync::mpsc::channel`: a connected sender/receiver pair.
/// What later travels through it depends on the threads that use it, so
/// nothing more is stated here.
#[verifier::external_body]
fn channel_pair<T>() -> (std::sync::mpsc::Sender<T>, std::sync::mpsc::Receiver<T>) {
    std::sync::mpsc::channel()
}

/// Relies on `std::sync::mpsc::Sender::send`: never blocks, and on failure
/// (the receiving half is gone) the value comes back unsent.
#[verifier::external_body]
fn send_on<T>(s: &std::sync::mpsc::Sender<T>, t: T) -> (r: Result<(), T>)
    ensures
        r matches Err(v) ==> v == t,
{
    s.send(t).map_err(|e| e.0)
}

/// Relies on `std::sync::mpsc::Receiver::recv`: blocks until a value is
/// available, and returns `None` only when every sending half is gone and
/// the queue is drained.  Which value arrives depends on the sending
/// threads, so nothing is stated about it.
#[verifier::external_body]
fn recv_on<T>(r: &std::sync::mpsc::Receiver<T>) -> Option<T> {
    r.recv().ok()
}

/// The writing half of a one-shot result cell.  Fulfilling consumes it, so
/// each pending send's outcome is reported exactly once.
pub struct ResultSlot(std::sync::mpsc::Sender<Result<(), SenderError>>);

/// The reading half of a one-shot result cell: the caller's handle on one
/// send's outcome.  Waiting consumes it, so the outcome is observed at most
/// once.
pub struct PendingResult(std::sync::mpsc::Receiver<Result<(), SenderError>>);

/// A fresh one-shot result cell, not yet fulfilled.
pub fn oneshot() -> (ResultSlot, PendingResult) {
    let (s, r) = channel_pair();
    (ResultSlot(s), PendingResult(r))
}

impl ResultSlot {
    /// Report the outcome of the send this slot belongs to.  If the caller
    /// already dropped its [`PendingResult`], the outcome is discarded — it
    /// had no remaining observer.
    pub fn fulfill(self, outcome: Result<(), SenderError>) {
        let _ = send_on(&self.0, outcome);
    }
}

impl PendingResult {
    /// Block until the send's outcome is known and return it.  If the
    /// worker is gone without fulfilling the slot, the send cannot have
    /// been completed and [`SenderError::Closed`] is returned.
    pub fn wait(self) -> Result<(), SenderError> {
        match recv_on(&self.0) {
            Some(outcome) => outcome,
            None => Err(SenderError::Closed),
        }
    }
}

/// A value queued to be sent, paired with the slot that will take the
/// outcome of its one write.
pub struct PendingSend<T> {
    /// The value to encode and write as one frame.
    pub value: T,
    /// Where the outbound worker reports this send's success or failure.
    pub slot: ResultSlot,
}

/// The caller-side half of a send queue.  Cloning it gives another handle
/// on the same queue.
#[derive(Clone)]
#[verifier::reject_recursive_types(T)]
pub struct SendQueue<T>(std::sync::mpsc::Sender<PendingSend<T>>);

/// The worker-side half of a send queue: the outbound worker drains it.
#[verifier::reject_recursive_types(T)]
pub struct WorkQueue<T>(std::sync::mpsc::Receiver<PendingSend<T>>);

/// A fresh send queue, its two halves connected.
pub fn send_queue<T>() -> (SendQueue<T>, WorkQueue<T>) {
    let (s, r) = channel_pair();
    (SendQueue(s), WorkQueue(r))
}

impl<T> SendQueue<T> {
    /// Queue one pending send without blocking.  When the worker half is
    /// gone the request comes back, so its slot can be fulfilled with the
    /// failure.
    pub fn enqueue(&self, req: PendingSend<T>) -> (r: Result<(), PendingSend<T>>)
        ensures
            r matches Err(back) ==> back == req,
    {
        send_on(&self.0, req)
    }
}

impl<T> WorkQueue<T> {
    /// Block until the next pending send is available and take it; `None`
    /// once every sender is gone and the queue is drained, which moves the
    /// outbound worker out of its running phase.
    pub fn take(&self) -> Option<PendingSend<T>> {
        recv_on(&self.0)
    }
}

/// The worker-side half of a receive queue: the inbound worker publishes
/// each decoded value or error here.
#[verifier::reject_recursive_types(S)]
pub struct Publisher<S>(std::sync::mpsc::Sender<Result<S, crate::ReceiverError>>);

/// The caller-side half of a receive queue.
#[verifier::reject_recursive_types(S)]
pub struct Inbox<S>(std::sync::mpsc::Receiver<Result<S, crate::ReceiverError>>);

/// A fresh receive queue, its two halves connected.
pub fn recv_queue<S>() -> (Publisher<S>, Inbox<S>) {
    let (s, r) = channel_pair();
    (Publisher(s), Inbox(r))
}

impl<S> Publisher<S> {
    /// Publish one outcome downstream; reports whether a receiver was still
    /// there to take it.  Nothing is retried and nothing is dropped
    /// silently: each outcome is published exactly once.
    pub fn publish(&self, item: Result<S, crate::ReceiverError>) -> (delivered: bool) {
        match send_on(&self.0, item) {
            Ok(()) => true,
            Err(_) => false,
        }
    }
}

impl<S> Inbox<S> {
    /// Block until the inbound worker has published the next outcome;
    /// `None` once the worker is gone and everything published has been
    /// taken.
    pub fn next_published(&self) -> Option<Result<S, crate::ReceiverError>> {
        recv_on(&self.0)
    }
}

} // verus!
