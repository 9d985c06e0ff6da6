//! The outbound channel of one viewer connection: a `tokio` mpsc channel that
//! holds at most one pending notification.
//!
//! Everything in this file is trusted: the contracts here are read off
//! `tokio`'s source, not proved.

use tokio::sync::mpsc::error::TrySendError;
use tokio::sync::mpsc::{Receiver, Sender};
use vstd::prelude::*;

verus! {

/// `tokio::sync::mpsc::Sender`, carried through verified code as an opaque handle.
#[verifier::external_type_specification]
#[verifier::external_body]
#[verifier::reject_recursive_types(T)]
pub struct ExSender<T>(Sender<T>);

/// `tokio::sync::mpsc::Receiver`, carried through verified code as an opaque handle.
#[verifier::external_type_specification]
#[verifier::external_body]
#[verifier::reject_recursive_types(T)]
pub struct ExReceiver<T>(Receiver<T>);

/// What became of one attempt to enqueue a notification.
#[derive(Clone, Copy, Debug, PartialEq, Eq, Structural)]
pub enum Delivery {
    /// The channel was empty and now holds the notification.
    Queued,
    /// The channel still held an earlier notification; this one was discarded.
    Full,
    /// The receiving half is gone; this notification was discarded.
    Closed,
}

/// How many messages the channel of `sender` holds at most: the buffer size it
/// was created with, which `Sender::max_capacity` returns.
pub uninterp spec fn sender_capacity(sender: Sender<String>) -> nat;

/// How many messages the channel of `receiver` holds at most: the buffer size
/// it was created with, which `Receiver::max_capacity` returns.
pub uninterp spec fn receiver_capacity(receiver: Receiver<String>) -> nat;

/// Calls `tokio::sync::mpsc::channel` with a buffer of one message.
///
/// The contract claims that both halves then belong to a channel of that size,
/// which never changes. That the two belong to the same channel is not stated
/// here. The call panics only for a buffer of zero, which is never passed.
#[verifier::external_body]
pub(crate) fn single_slot_channel() -> (halves: (Sender<String>, Receiver<String>))
    ensures
        sender_capacity(halves.0) == 1,
        receiver_capacity(halves.1) == 1,
{
    tokio::sync::mpsc::channel(1)
}

/// Calls `Sender::try_send`, which returns at once, and reports which of its
/// three outcomes occurred.
///
/// Which one occurs depends on what the receiving task has done so far, so
/// nothing is claimed of the result.
#[verifier::external_body]
pub(crate) fn offer(sender: &Sender<String>, message: String) -> (delivery: Delivery) {
    match sender.try_send(message) {
        Ok(()) => Delivery::Queued,
        Err(TrySendError::Full(_)) => Delivery::Full,
        Err(TrySendError::Closed(_)) => Delivery::Closed,
    }
}

} // verus!
