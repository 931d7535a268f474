//! The message-passing boundary: unbounded many-to-one queues carry
//! `Message`s and `Request`s between consumers and the session task, and
//! single-use completion slots carry each request's answer back.
//!
//! Everything here is a thin trusted layer over tokio's channel types; the
//! code that decides what to send and how to act on what arrives is verified
//! and lives in the other modules.

use vstd::prelude::*;

use tokio::sync::mpsc;
use tokio::sync::oneshot;

verus! {

#[verifier::external_type_specification]
#[verifier::external_body]
#[verifier::reject_recursive_types(T)]
pub struct ExUnboundedSender<T>(mpsc::UnboundedSender<T>);

#[verifier::external_type_specification]
#[verifier::external_body]
#[verifier::reject_recursive_types(T)]
pub struct ExUnboundedReceiver<T>(mpsc::UnboundedReceiver<T>);

#[verifier::external_type_specification]
#[verifier::external_body]
#[verifier::reject_recursive_types(T)]
pub struct ExOneshotSender<T>(oneshot::Sender<T>);

/// The waiting half of a completion slot: tokio's single-use receiver,
/// held opaquely.
#[verifier::external_body]
#[verifier::reject_recursive_types(T)]
pub struct Completion<T> {
    rx: oneshot::Receiver<T>,
}

/// What a non-waiting pull can find: a queued value, nothing yet, or a queue
/// whose sending half is gone for good.
pub enum Pulled<T> {
    Item(T),
    Empty,
    Closed,
}

/// Relies on tokio::sync::mpsc::UnboundedSender::send: enqueues the value and
/// returns Ok exactly when the receiving half is still open; the value is
/// consumed either way and the call never waits. The call does not unwind.
#[verifier::external_body]
pub(crate) fn pipe_send<T>(tx: &mpsc::UnboundedSender<T>, value: T) -> (r: bool)
    opens_invariants none
    no_unwind
{
    tx.send(value).is_ok()
}

/// Relies on tokio::sync::mpsc::UnboundedReceiver::blocking_recv: waits for
/// the next queued value, in the order the senders enqueued them, and returns
/// None once every sender is dropped and the queue is drained. It must not be
/// reached from inside an asynchronous runtime.
#[verifier::external_body]
pub(crate) fn pipe_recv<T>(rx: &mut mpsc::UnboundedReceiver<T>) -> (r: Option<T>) {
    rx.blocking_recv()
}

/// Relies on tokio::sync::mpsc::UnboundedReceiver::try_recv: never waits, and
/// tells a queue that is merely empty apart from one whose senders are gone.
#[verifier::external_body]
pub(crate) fn pipe_try_recv<T>(rx: &mut mpsc::UnboundedReceiver<T>) -> (r: Pulled<T>) {
    match rx.try_recv() {
        Ok(value) => Pulled::Item(value),
        Err(mpsc::error::TryRecvError::Empty) => Pulled::Empty,
        Err(mpsc::error::TryRecvError::Disconnected) => Pulled::Closed,
    }
}

/// Relies on Clone for tokio::sync::mpsc::UnboundedSender: yields another
/// handle to the same queue.
#[verifier::external_body]
pub(crate) fn clone_sender<T>(tx: &mpsc::UnboundedSender<T>) -> (r: mpsc::UnboundedSender<T>) {
    tx.clone()
}

/// Relies on tokio::sync::oneshot::channel: makes a fresh single-use
/// completion slot, resolved at most once through the returned sender.
#[verifier::external_body]
pub(crate) fn completion_pair<T>() -> (r: (oneshot::Sender<T>, Completion<T>)) {
    let (tx, rx) = oneshot::channel();
    (tx, Completion { rx })
}

/// Relies on tokio::sync::oneshot::Receiver::blocking_recv: waits until the
/// sender resolves the slot (Some) or is dropped with it unresolved (None).
/// It must not be reached from inside an asynchronous runtime.
#[verifier::external_body]
pub(crate) fn await_completion<T>(slot: Completion<T>) -> (r: Option<T>) {
    match slot.rx.blocking_recv() {
        Ok(value) => Some(value),
        Err(_) => None,
    }
}

} // verus!
