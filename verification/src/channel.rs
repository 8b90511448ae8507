//! The bounded channels that carry messages between tasks.
//!
//! The channels are those of `tokio::sync::mpsc`. Verified code creates them
//! and sends into them without waiting; waiting for capacity or for a message
//! is left to the tasks that hold the ends.

use vstd::prelude::*;
use tokio::sync::mpsc::error::{SendError, TrySendError};
use tokio::sync::mpsc::{Receiver, Sender};

verus! {

/// The sending end of a bounded channel, `tokio::sync::mpsc::Sender`.
#[verifier::external_type_specification]
#[verifier::external_body]
#[verifier::reject_recursive_types(T)]
pub struct ExSender<T>(Sender<T>);

/// The receiving end of a bounded channel, `tokio::sync::mpsc::Receiver`.
#[verifier::external_type_specification]
#[verifier::external_body]
#[verifier::reject_recursive_types(T)]
pub struct ExReceiver<T>(Receiver<T>);

/// Why a message could not be sent without waiting,
/// `tokio::sync::mpsc::error::TrySendError`.
#[verifier::external_type_specification]
#[verifier::external_body]
#[verifier::reject_recursive_types(T)]
pub struct ExTrySendError<T>(TrySendError<T>);

/// The message that a closed channel refused,
/// `tokio::sync::mpsc::error::SendError`.
#[verifier::external_type_specification]
#[verifier::external_body]
#[verifier::reject_recursive_types(T)]
pub struct ExSendError<T>(SendError<T>);

/// Largest capacity that a channel is created with here. The channels take
/// up to an eighth of the range of `usize`; this bound is below that on
/// machines of 32 and of 64 bits.
pub const MAX_CHANNEL_SIZE: usize = 0x1fff_ffff;

/// Calls `tokio::sync::mpsc::channel`, which creates a bounded channel that
/// holds up to `buffer` messages. It panics on a capacity of zero and on one
/// above its maximum, which the precondition leaves out. Nothing is claimed
/// of the two ends.
#[verifier::external_body]
pub(crate) fn bounded_channel<T>(buffer: usize) -> (r: (Sender<T>, Receiver<T>))
    requires
        0 < buffer <= MAX_CHANNEL_SIZE,
{
    tokio::sync::mpsc::channel(buffer)
}

/// Calls `clone` of `tokio::sync::mpsc::Sender`, which gives another handle
/// on the sending end of the same channel. The claim: the clone is the same
/// sending end as the one it was made from, so that what is said of where
/// the one sends holds of the other.
#[verifier::external_body]
pub(crate) fn clone_sender<T>(tx: &Sender<T>) -> (r: Sender<T>)
    ensures
        r == *tx,
{
    tx.clone()
}

/// Calls `try_send` of `tokio::sync::mpsc::Sender`, which queues the message
/// if the channel has room and is open, and hands it back in the error if
/// not. Whether there is room depends on the receiving task, so nothing is
/// claimed of the result.
#[verifier::external_body]
pub(crate) fn try_send<T>(tx: &Sender<T>, message: T) -> (r: Result<(), TrySendError<T>>) {
    tx.try_send(message)
}

} // verus!
