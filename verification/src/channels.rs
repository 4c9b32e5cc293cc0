//! The message queues the workers talk through. They are shared between
//! threads, so what a queue holds at any moment is outside what this crate
//! can state: every call below is described by the answers it may give.

use vstd::prelude::*;

verus! {

#[verifier::external_type_specification]
#[verifier::external_body]
#[verifier::reject_recursive_types(T)]
pub struct ExMessageSender<T>(tokio::sync::mpsc::Sender<T>);

#[verifier::external_type_specification]
#[verifier::external_body]
#[verifier::reject_recursive_types(T)]
pub struct ExMessageReceiver<T>(tokio::sync::mpsc::Receiver<T>);

#[verifier::external_type_specification]
#[verifier::external_body]
#[verifier::reject_recursive_types(T)]
pub struct ExFrameSender<T>(crossbeam::channel::Sender<T>);

#[verifier::external_type_specification]
#[verifier::external_body]
#[verifier::reject_recursive_types(T)]
pub struct ExFrameReceiver<T>(crossbeam::channel::Receiver<T>);

/// How a non-blocking send ended.
#[derive(Clone, Copy, Debug, PartialEq, Eq, Structural)]
pub enum SendStatus {
    /// The message is in the queue.
    Sent,
    /// The queue was full; the message was dropped.
    Full,
    /// The receiving side is gone; the message was dropped.
    Closed,
}

/// Why a non-blocking receive handed back no message.
#[derive(Clone, Copy, Debug, PartialEq, Eq, Structural)]
pub enum RecvFailure {
    /// Nothing is queued, but a sender is still alive.
    Empty,
    /// Nothing is queued and every sender is gone.
    Disconnected,
}

/// The largest capacity this crate asks a queue for.
pub const MAX_QUEUE_CAPACITY: usize = 65536;

/// Calls `tokio::sync::mpsc::channel`. That function panics on a capacity of
/// zero or above its semaphore's limit of `usize::MAX >> 3`, which
/// `requires` keeps out. Nothing is claimed of the two ends.
#[verifier::external_body]
pub(crate) fn message_channel<T>(capacity: usize) -> (ends: (
    tokio::sync::mpsc::Sender<T>,
    tokio::sync::mpsc::Receiver<T>,
))
    requires
        0 < capacity <= MAX_QUEUE_CAPACITY,
{
    tokio::sync::mpsc::channel(capacity)
}

/// Calls `tokio::sync::mpsc::Sender::is_closed`. The answer depends on what
/// the receiving side has done, so nothing is claimed of it.
#[verifier::external_body]
pub(crate) fn sender_is_closed<T>(tx: &tokio::sync::mpsc::Sender<T>) -> (closed: bool) {
    tx.is_closed()
}

/// Calls `tokio::sync::mpsc::Sender::try_send` and turns its answer into a
/// `SendStatus`, one variant for each. Which one comes back depends on the
/// receiving side, so nothing is claimed of it.
#[verifier::external_body]
pub(crate) fn try_send_message<T>(tx: &tokio::sync::mpsc::Sender<T>, message: T) -> (status:
    SendStatus) {
    match tx.try_send(message) {
        Ok(()) => SendStatus::Sent,
        Err(tokio::sync::mpsc::error::TrySendError::Full(_)) => SendStatus::Full,
        Err(tokio::sync::mpsc::error::TrySendError::Closed(_)) => SendStatus::Closed,
    }
}

/// Calls `tokio::sync::mpsc::Receiver::try_recv` and turns its error into a
/// `RecvFailure`, one variant for each. What comes back depends on the
/// sending side, so nothing is claimed of it.
#[verifier::external_body]
pub(crate) fn try_recv_message<T>(rx: &mut tokio::sync::mpsc::Receiver<T>) -> (polled: Result<
    T,
    RecvFailure,
>) {
    match rx.try_recv() {
        Ok(message) => Ok(message),
        Err(tokio::sync::mpsc::error::TryRecvError::Empty) => Err(RecvFailure::Empty),
        Err(tokio::sync::mpsc::error::TryRecvError::Disconnected) => Err(
            RecvFailure::Disconnected,
        ),
    }
}

/// Calls `crossbeam::channel::bounded`. That function panics where the
/// capacity is too large for its slots to be allocated, so `requires` keeps
/// the capacity small. Nothing is claimed of the two ends.
#[verifier::external_body]
pub(crate) fn frame_channel<T>(capacity: usize) -> (ends: (
    crossbeam::channel::Sender<T>,
    crossbeam::channel::Receiver<T>,
))
    requires
        capacity <= MAX_QUEUE_CAPACITY,
{
    crossbeam::channel::bounded(capacity)
}

/// Calls `crossbeam::channel::Sender::try_send` and turns its answer into a
/// `SendStatus`, `Closed` standing for a disconnected queue. Which one comes
/// back depends on the receiving side, so nothing is claimed of it.
#[verifier::external_body]
pub(crate) fn try_send_frame<T>(tx: &crossbeam::channel::Sender<T>, frame: T) -> (status:
    SendStatus) {
    match tx.try_send(frame) {
        Ok(()) => SendStatus::Sent,
        Err(crossbeam::channel::TrySendError::Full(_)) => SendStatus::Full,
        Err(crossbeam::channel::TrySendError::Disconnected(_)) => SendStatus::Closed,
    }
}

} // verus!
