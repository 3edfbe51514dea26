//! Message queues between the threads of a session.
//!
//! The queues are unbounded multi-producer channels of `crossbeam_channel`.
//! What a queue holds at any moment depends on the other threads, so nothing
//! is claimed of what a call finds: callers decide on the value they get.

use crossbeam_channel::{Receiver, Sender};
use vstd::prelude::*;

verus! {

/// The sending half of a `crossbeam_channel` channel, carried as an opaque value.
#[verifier::external_type_specification]
#[verifier::external_body]
#[verifier::reject_recursive_types(T)]
pub struct ExSender<T>(Sender<T>);

/// The receiving half of a `crossbeam_channel` channel, carried as an opaque value.
#[verifier::external_type_specification]
#[verifier::external_body]
#[verifier::reject_recursive_types(T)]
pub struct ExReceiver<T>(Receiver<T>);

/// What a dequeue found.
pub enum Polled<T> {
    /// A message was waiting.
    Item(T),
    /// No message was waiting, and a sender may still produce one.
    Empty,
    /// No message was waiting, and every sender is gone.
    Disconnected,
}

/// `crossbeam_channel::unbounded`: a new queue without a capacity limit, as
/// its sending and receiving halves. Nothing is claimed of the halves.
#[verifier::external_body]
pub(crate) fn unbounded<T>() -> (ends: (Sender<T>, Receiver<T>)) {
    crossbeam_channel::unbounded()
}

/// `Sender::clone`: another sending half of the same queue. Nothing is
/// claimed of it.
#[verifier::external_body]
pub(crate) fn clone_sender<T>(tx: &Sender<T>) -> (other: Sender<T>) {
    tx.clone()
}

/// `Sender::send`: enqueues `msg`. The answer is `false` when the receiving
/// half is gone and the message was handed back; which of the two happens
/// depends on the other threads, so nothing is claimed of it.
#[verifier::external_body]
pub(crate) fn send<T>(tx: &Sender<T>, msg: T) -> (sent: bool) {
    tx.send(msg).is_ok()
}

/// `Receiver::recv`: waits for a message, or for the queue to be empty with
/// every sender gone. What arrives depends on the other threads, so nothing
/// is claimed of it.
#[verifier::external_body]
pub(crate) fn recv<T>(rx: &Receiver<T>) -> (got: Option<T>) {
    rx.recv().ok()
}

/// `Receiver::try_recv`: takes a waiting message without blocking, or tells
/// an empty queue from a disconnected one. What it finds depends on the other
/// threads, so nothing is claimed of it.
#[verifier::external_body]
pub(crate) fn try_recv<T>(rx: &Receiver<T>) -> (got: Polled<T>) {
    match rx.try_recv() {
        Ok(msg) => Polled::Item(msg),
        Err(crossbeam_channel::TryRecvError::Empty) => Polled::Empty,
        Err(crossbeam_channel::TryRecvError::Disconnected) => Polled::Disconnected,
    }
}

/// `Receiver::is_empty`: whether no message is waiting at this moment. The
/// answer can change under the caller, so nothing is claimed of it.
#[verifier::external_body]
pub(crate) fn is_empty<T>(rx: &Receiver<T>) -> (empty: bool) {
    rx.is_empty()
}

} // verus!
