//! Trusted boundary around the bounded channels that carry messages between
//! the tick thread and the background network tasks.
//!
//! The channels come from tokio's bounded mpsc module. Nothing is assumed
//! about what a probe of a channel returns — a peer on another thread may
//! have sent, hung back, or gone away — so the wrappers here only name the
//! possible outcomes, and the bridge states what holds of its own fields
//! whatever came back.

use vstd::prelude::*;

verus! {

#[verifier::external_type_specification]
#[verifier::external_body]
#[verifier::reject_recursive_types(T)]
pub struct ExSender<T>(tokio::sync::mpsc::Sender<T>);

#[verifier::external_type_specification]
#[verifier::external_body]
#[verifier::reject_recursive_types(T)]
pub struct ExReceiver<T>(tokio::sync::mpsc::Receiver<T>);

/// What one non-blocking probe of a channel's consuming end observed.
pub enum RecvOutcome<T> {
    /// A message was buffered; this is it, removed from the queue.
    Item(T),
    /// Nothing buffered, but senders still exist.
    Empty,
    /// All senders are gone and the buffer is drained: nothing will ever
    /// arrive again.
    Closed,
}

/// What one non-blocking enqueue on a channel's producing end achieved. A
/// refused message comes back with the answer, so a caller can keep it.
pub enum SendOutcome<T> {
    /// The message was placed in the queue.
    Sent,
    /// The queue is at capacity; this is the refused message.
    Full(T),
    /// The receiver is gone; this is the refused message.
    Closed(T),
}

/// Relies on tokio::sync::mpsc::channel: makes a bounded channel pair. It
/// panics when the capacity is zero or above the permit limit of tokio's
/// semaphore — `usize::MAX >> 3`, written here as `usize::MAX / 8`, the same
/// value on the all-ones maximum; the precondition rules both panics out.
#[verifier::external_body]
pub(crate) fn channel_pair<T>(capacity: usize) -> (tokio::sync::mpsc::Sender<T>, tokio::sync::mpsc::Receiver<T>)
    requires
        1 <= capacity <= usize::MAX / 8,
{
    tokio::sync::mpsc::channel(capacity)
}

/// Relies on tokio's Receiver::try_recv: it returns without waiting for a
/// message — at most it spins briefly while a racing send is mid-flight —
/// and yields the oldest buffered message, or reports the buffer empty, or
/// reports every sender gone. Which outcome comes back depends on the peer
/// thread, so no outcome is promised.
#[verifier::external_body]
pub(crate) fn chan_try_recv<T>(rx: &mut tokio::sync::mpsc::Receiver<T>) -> RecvOutcome<T> {
    match rx.try_recv() {
        Ok(v) => RecvOutcome::Item(v),
        Err(tokio::sync::mpsc::error::TryRecvError::Empty) => RecvOutcome::Empty,
        Err(tokio::sync::mpsc::error::TryRecvError::Disconnected) => RecvOutcome::Closed,
    }
}

/// Relies on tokio's Sender::try_send: it never blocks, and either enqueues
/// the message or refuses it because the queue is full or the receiver is
/// gone — and then the error carries the message back unchanged, which is
/// all this contract claims. Which outcome comes back depends on the peer
/// thread.
#[verifier::external_body]
pub(crate) fn chan_try_send<T>(tx: &tokio::sync::mpsc::Sender<T>, value: T) -> (r: SendOutcome<
    T,
>)
    ensures
        (r matches SendOutcome::Full(v) ==> v == value),
        (r matches SendOutcome::Closed(v) ==> v == value),
{
    match tx.try_send(value) {
        Ok(()) => SendOutcome::Sent,
        Err(tokio::sync::mpsc::error::TrySendError::Full(v)) => SendOutcome::Full(v),
        Err(tokio::sync::mpsc::error::TrySendError::Closed(v)) => SendOutcome::Closed(v),
    }
}

} // verus!
