//! The channels of `tokio::sync::mpsc` as this crate uses them. Nothing in
//! this file is proved: each contract states what tokio's source shows.

use vstd::prelude::*;
use crate::bridge::outcome::{RecvOutcome, SendOutcome};

verus! {

/// Sending half of a bounded channel.
#[verifier::external_type_specification]
#[verifier::external_body]
#[verifier::reject_recursive_types(T)]
pub struct ExSender<T>(tokio::sync::mpsc::Sender<T>);

/// Receiving half of a bounded channel.
#[verifier::external_type_specification]
#[verifier::external_body]
#[verifier::reject_recursive_types(T)]
pub struct ExReceiver<T>(tokio::sync::mpsc::Receiver<T>);

/// Sending half of an unbounded channel.
#[verifier::external_type_specification]
#[verifier::external_body]
#[verifier::reject_recursive_types(T)]
pub struct ExUnboundedSender<T>(tokio::sync::mpsc::UnboundedSender<T>);

/// Receiving half of an unbounded channel.
#[verifier::external_type_specification]
#[verifier::external_body]
#[verifier::reject_recursive_types(T)]
pub struct ExUnboundedReceiver<T>(tokio::sync::mpsc::UnboundedReceiver<T>);

/// Largest buffer that `bounded_channel` is asked for: tokio takes at most
/// `usize::MAX >> 3`, which is no less than this wherever `usize` has 32
/// bits or more.
pub const MAX_BUFFER: usize = 0x1fff_ffff;

/// `tokio::sync::mpsc::channel`: a new bounded channel. It panics on a
/// buffer of 0 or one above `usize::MAX >> 3`, so both are ruled out.
/// Nothing is claimed of the two halves.
#[verifier::external_body]
pub(crate) fn bounded_channel<T>(buffer: usize) -> (halves: (
    tokio::sync::mpsc::Sender<T>,
    tokio::sync::mpsc::Receiver<T>,
))
    requires
        0 < buffer <= MAX_BUFFER,
{
    tokio::sync::mpsc::channel(buffer)
}

/// `tokio::sync::mpsc::unbounded_channel`: a new unbounded channel.
/// Nothing is claimed of the two halves.
#[verifier::external_body]
pub(crate) fn unbounded_channel<T>() -> (halves: (
    tokio::sync::mpsc::UnboundedSender<T>,
    tokio::sync::mpsc::UnboundedReceiver<T>,
))
{
    tokio::sync::mpsc::unbounded_channel()
}

/// `Clone` of `tokio::sync::mpsc::Sender`: one more sender for the same
/// channel. Nothing is claimed of it.
pub assume_specification<T>[ <tokio::sync::mpsc::Sender<T> as Clone>::clone ](
    sender: &tokio::sync::mpsc::Sender<T>,
) -> (copy: tokio::sync::mpsc::Sender<T>)
;

/// `Clone` of `tokio::sync::mpsc::UnboundedSender`: one more sender for
/// the same channel. Nothing is claimed of it.
pub assume_specification<T>[ <tokio::sync::mpsc::UnboundedSender<T> as Clone>::clone ](
    sender: &tokio::sync::mpsc::UnboundedSender<T>,
) -> (copy: tokio::sync::mpsc::UnboundedSender<T>)
;

/// `Sender::try_send`. Whether the message is queued depends on what the
/// other threads have done, so nothing is claimed of that; a message that
/// is not queued comes back as it was handed in.
#[verifier::external_body]
pub(crate) fn try_send_bounded<T>(sender: &tokio::sync::mpsc::Sender<T>, message: T) -> (outcome:
    SendOutcome<T>)
    ensures
        outcome matches SendOutcome::Full(m) ==> m == message,
        outcome matches SendOutcome::Closed(m) ==> m == message,
{
    match sender.try_send(message) {
        Ok(()) => SendOutcome::Queued,
        Err(tokio::sync::mpsc::error::TrySendError::Full(m)) => SendOutcome::Full(m),
        Err(tokio::sync::mpsc::error::TrySendError::Closed(m)) => SendOutcome::Closed(m),
    }
}

/// `UnboundedSender::send`. It fails only where the receiving half is
/// closed, never for want of room; a message that is not queued comes
/// back as it was handed in. tokio ends the process if the count of
/// messages in the queue reaches `usize::MAX / 2`.
#[verifier::external_body]
pub(crate) fn send_unbounded<T>(
    sender: &tokio::sync::mpsc::UnboundedSender<T>,
    message: T,
) -> (outcome: SendOutcome<T>)
    ensures
        !(outcome is Full),
        outcome matches SendOutcome::Closed(m) ==> m == message,
{
    match sender.send(message) {
        Ok(()) => SendOutcome::Queued,
        Err(refused) => SendOutcome::Closed(refused.0),
    }
}

/// `Receiver::try_recv`. What comes back depends on what the senders have
/// done, so nothing is claimed of it.
#[verifier::external_body]
pub(crate) fn try_recv_bounded<T>(receiver: &mut tokio::sync::mpsc::Receiver<T>) -> (outcome:
    RecvOutcome<T>)
{
    match receiver.try_recv() {
        Ok(message) => RecvOutcome::Message(message),
        Err(tokio::sync::mpsc::error::TryRecvError::Empty) => RecvOutcome::Empty,
        Err(tokio::sync::mpsc::error::TryRecvError::Disconnected) => RecvOutcome::Disconnected,
    }
}

/// `UnboundedReceiver::try_recv`. What comes back depends on what the
/// senders have done, so nothing is claimed of it.
#[verifier::external_body]
pub(crate) fn try_recv_unbounded<T>(receiver: &mut tokio::sync::mpsc::UnboundedReceiver<T>) -> (outcome:
    RecvOutcome<T>)
{
    match receiver.try_recv() {
        Ok(message) => RecvOutcome::Message(message),
        Err(tokio::sync::mpsc::error::TryRecvError::Empty) => RecvOutcome::Empty,
        Err(tokio::sync::mpsc::error::TryRecvError::Disconnected) => RecvOutcome::Disconnected,
    }
}

} // verus!
