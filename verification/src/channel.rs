use vstd::prelude::*;
use std::sync::mpsc::{Receiver, SyncSender, TrySendError};

verus! {

// The bounded multi-producer single-consumer queue of std, and the handful
// of calls the clients and the server make on it. What travels through a
// channel depends on
// what other threads do with their ends, so the contracts here state only
// what holds of every outcome.

#[verifier::external_type_specification]
#[verifier::external_body]
#[verifier::reject_recursive_types(T)]
pub struct ExSyncSender<T>(SyncSender<T>);

#[verifier::external_type_specification]
#[verifier::external_body]
#[verifier::reject_recursive_types(T)]
pub struct ExReceiver<T>(Receiver<T>);

/// Why the queue refused a message without blocking.
pub enum SendRefused<T> {
    /// every slot was taken; the message comes back
    Full(T),
    /// the receiving end is gone; the message comes back
    Closed(T),
}

/// Relies on `std::sync::mpsc::sync_channel`: the sending and receiving end
/// of a fresh queue with the given number of slots.
#[verifier::external_body]
pub(crate) fn bounded_channel<T>(capacity: usize) -> (SyncSender<T>, Receiver<T>) {
    std::sync::mpsc::sync_channel(capacity)
}

/// Relies on `std::sync::mpsc::SyncSender::try_send`: enqueues without ever
/// blocking, and on refusal hands the message back untouched.
#[verifier::external_body]
pub(crate) fn try_send<T>(sender: &SyncSender<T>, message: T) -> (r: Result<(), SendRefused<T>>)
    ensures
        r matches Err(SendRefused::Full(m)) ==> m == message,
        r matches Err(SendRefused::Closed(m)) ==> m == message,
{
    match sender.try_send(message) {
        Ok(()) => Ok(()),
        Err(TrySendError::Full(m)) => Err(SendRefused::Full(m)),
        Err(TrySendError::Disconnected(m)) => Err(SendRefused::Closed(m)),
    }
}

/// Relies on `std::sync::mpsc::Receiver::recv`: blocks for the next message
/// in FIFO order; `None` once every sender is dropped and the queue is
/// drained.
#[verifier::external_body]
pub(crate) fn recv<T>(receiver: &Receiver<T>) -> (r: Option<T>) {
    receiver.recv().ok()
}

/// Relies on `std::sync::mpsc::SyncSender::clone`: another sending end of
/// the same queue.
pub assume_specification<T>[ <SyncSender<T> as Clone>::clone ](
    sender: &SyncSender<T>,
) -> SyncSender<T>;

} // verus!
