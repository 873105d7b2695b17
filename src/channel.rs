use vstd::prelude::*;
use tokio::sync::mpsc::{UnboundedReceiver, UnboundedSender};

verus! {

#[verifier::external_type_specification]
#[verifier::external_body]
#[verifier::reject_recursive_types(T)]
pub struct ExUnboundedSender<T>(UnboundedSender<T>);

#[verifier::external_type_specification]
#[verifier::external_body]
#[verifier::reject_recursive_types(T)]
pub struct ExUnboundedReceiver<T>(UnboundedReceiver<T>);

/// What one attempt to take a message from the channel found.
pub enum Received<T> {
    /// A message, now owned by the receiver.
    Item(T),
    /// Nothing queued, but some send handle is still alive.
    Empty,
    /// Nothing queued, and every send handle is gone: nothing more will come.
    Closed,
}

/// Relies on tokio::sync::mpsc::unbounded_channel: a fresh channel, as its
/// send handle and its receive handle.
#[verifier::external_body]
pub(crate) fn unbounded_channel<T>() -> (UnboundedSender<T>, UnboundedReceiver<T>) {
    tokio::sync::mpsc::unbounded_channel()
}

/// Relies on tokio's UnboundedSender::clone: one more send handle on the
/// same channel, a value around the same shared channel pointer.
#[verifier::external_body]
pub(crate) fn clone_sender<T>(tx: &UnboundedSender<T>) -> (r: UnboundedSender<T>)
    ensures
        r == *tx,
{
    tx.clone()
}

/// Relies on tokio's UnboundedSender::send: queues the message without
/// waiting; `false` when the receive handle is already gone and the message
/// was dropped.
#[verifier::external_body]
pub(crate) fn send_message<T>(tx: &UnboundedSender<T>, message: T) -> bool {
    tx.send(message).is_ok()
}

/// Relies on tokio's UnboundedReceiver::try_recv: takes the next queued
/// message without waiting, or says why there is none.
#[verifier::external_body]
pub(crate) fn try_receive<T>(rx: &mut UnboundedReceiver<T>) -> Received<T> {
    match rx.try_recv() {
        Ok(message) => Received::Item(message),
        Err(tokio::sync::mpsc::error::TryRecvError::Empty) => Received::Empty,
        Err(tokio::sync::mpsc::error::TryRecvError::Disconnected) => Received::Closed,
    }
}

} // verus!
