//! Trusted bindings to the crossbeam channel that carries cross-thread user
//! events and wakeups into the loop's thread.
//!
//! Nothing is assumed about what a concurrent call observes: the channel is
//! shared, so a send may race a disconnect and a receive may race a send.
//! The verified code therefore states only what holds of every outcome, and
//! handles every value a receive may yield.

use vstd::prelude::*;

use crate::event::EventsLoopClosed;

verus! {

#[verifier::external_type_specification]
#[verifier::external_body]
#[verifier::reject_recursive_types(T)]
pub struct ExSender<T>(crossbeam_channel::Sender<T>);

#[verifier::external_type_specification]
#[verifier::external_body]
#[verifier::reject_recursive_types(T)]
pub struct ExReceiver<T>(crossbeam_channel::Receiver<T>);

/// Relies on crossbeam_channel::Sender::send: on an unbounded channel it
/// returns at once, `Ok` when the message was enqueued and `Err` carrying
/// the message back when every receiver is gone; no third outcome exists.
#[verifier::external_body]
pub(crate) fn channel_send<T>(tx: &crossbeam_channel::Sender<T>, value: T) -> Result<(), EventsLoopClosed> {
    match tx.send(value) {
        Ok(()) => Ok(()),
        Err(_) => Err(EventsLoopClosed),
    }
}

/// Relies on crossbeam_channel::Receiver::try_recv: returns at once with a
/// queued message, or with nothing when the queue is empty or every sender
/// is gone. Messages of one sender come out in the order they were sent.
#[verifier::external_body]
pub(crate) fn channel_try_recv<T>(rx: &crossbeam_channel::Receiver<T>) -> Option<T> {
    rx.try_recv().ok()
}

/// Relies on crossbeam_channel::Sender::clone: the clone feeds the same
/// queue, so a proxy can be handed to another thread.
pub assume_specification<T>[ <crossbeam_channel::Sender<T> as core::clone::Clone>::clone ](
    tx: &crossbeam_channel::Sender<T>,
) -> crossbeam_channel::Sender<T>;

/// Relies on crossbeam_channel::bounded with capacity one: a pair whose
/// queue holds at most one message, standing for a boolean flag that a set
/// poke leaves set.
#[verifier::external_body]
pub(crate) fn flag_pair() -> (crossbeam_channel::Sender<()>, crossbeam_channel::Receiver<()>) {
    crossbeam_channel::bounded(1)
}

/// Relies on crossbeam_channel::Sender::try_send: it returns at once —
/// `Ok` when the message was enqueued or the queue was already full (the
/// flag stays set; pokes coalesce), `Err` when every receiver is gone; no
/// panic on any input.
#[verifier::external_body]
pub(crate) fn flag_set(tx: &crossbeam_channel::Sender<()>) -> Result<(), EventsLoopClosed> {
    match tx.try_send(()) {
        Ok(()) => Ok(()),
        Err(crossbeam_channel::TrySendError::Full(())) => Ok(()),
        Err(crossbeam_channel::TrySendError::Disconnected(())) => Err(EventsLoopClosed),
    }
}

} // verus!
