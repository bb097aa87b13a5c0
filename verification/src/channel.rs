//! The bounded channel between the terminal sink and the display.

use tokio::sync::mpsc::error::TrySendError;
use tokio::sync::mpsc::{Receiver, Sender};
use vstd::prelude::*;

verus! {

/// `tokio::sync::mpsc::Sender`, the producing end of a bounded channel.
#[verifier::external_type_specification]
#[verifier::external_body]
#[verifier::reject_recursive_types(T)]
pub struct ExSender<T>(Sender<T>);

/// `tokio::sync::mpsc::Receiver`, the consuming end of a bounded channel.
#[verifier::external_type_specification]
#[verifier::external_body]
#[verifier::reject_recursive_types(T)]
pub struct ExReceiver<T>(Receiver<T>);

/// What `Sender::max_capacity` returns: the number of records that the
/// channel of `sender` was made to hold. It stays the same for as long as the
/// channel lives, whatever is sent or received.
pub uninterp spec fn sender_bound(sender: Sender<Vec<u8>>) -> usize;

/// What `Receiver::max_capacity` returns: the number of records that the
/// channel of `receiver` was made to hold.
pub uninterp spec fn receiver_bound(receiver: Receiver<Vec<u8>>) -> usize;

/// The number of records that the display channel holds before further
/// records are dropped.
pub const CHANNEL_CAPACITY: usize = 1024;

/// What became of a record that was offered to the channel.
#[derive(Clone, Copy, Debug, PartialEq, Eq, Structural)]
pub enum Delivery {
    /// The record is in the channel.
    Queued,
    /// The channel was full: the record is gone.
    Full,
    /// The consuming end is gone, and the record with it.
    Closed,
}

/// `tokio::sync::mpsc::channel`: a channel for `buffer` records. Trusted: both
/// ends report `buffer` as their greatest capacity. The call panics on a
/// buffer of 0 and on one above an eighth of `usize::MAX`.
#[verifier::external_body]
fn bounded_channel(buffer: usize) -> (ends: (Sender<Vec<u8>>, Receiver<Vec<u8>>))
    requires
        0 < buffer <= usize::MAX / 8,
    ensures
        sender_bound(ends.0) == buffer,
        receiver_bound(ends.1) == buffer,
{
    tokio::sync::mpsc::channel(buffer)
}

/// `Sender::clone`: another handle on the same channel. Trusted: the copy
/// reports the same greatest capacity.
#[verifier::external_body]
pub(crate) fn clone_sender(sender: &Sender<Vec<u8>>) -> (copy: Sender<Vec<u8>>)
    ensures
        sender_bound(copy) == sender_bound(*sender),
{
    sender.clone()
}

/// `Sender::try_send`: offers `record` to the channel and returns at once.
/// Trusted. Whether the record is queued depends on what the other end has
/// taken out by then, so nothing is claimed of the result.
#[verifier::external_body]
pub(crate) fn try_send(sender: &Sender<Vec<u8>>, record: Vec<u8>) -> Delivery {
    match sender.try_send(record) {
        Ok(()) => Delivery::Queued,
        Err(TrySendError::Full(_)) => Delivery::Full,
        Err(TrySendError::Closed(_)) => Delivery::Closed,
    }
}

/// The sender that the terminal writer keeps: none where the display is
/// suppressed, `sender` itself otherwise.
pub open spec fn kept_sender(nodisplay: bool, sender: Sender<Vec<u8>>) -> Option<
    Sender<Vec<u8>>,
> {
    if nodisplay {
        None
    } else {
        Some(sender)
    }
}

/// Makes the display channel, of [`CHANNEL_CAPACITY`] records.
pub fn log_channel() -> (ends: (Sender<Vec<u8>>, Receiver<Vec<u8>>))
    ensures
        sender_bound(ends.0) == CHANNEL_CAPACITY,
        receiver_bound(ends.1) == CHANNEL_CAPACITY,
{
    bounded_channel(CHANNEL_CAPACITY)
}

/// Decides whether the terminal writer feeds the channel. Where the display
/// is suppressed the sender is given up, so that nothing can reach the
/// consuming end.
pub fn select_sender(nodisplay: bool, sender: Sender<Vec<u8>>) -> (kept: Option<
    Sender<Vec<u8>>,
>)
    ensures
        kept == kept_sender(nodisplay, sender),
{
    if nodisplay {
        None
    } else {
        Some(sender)
    }
}

} // verus!
