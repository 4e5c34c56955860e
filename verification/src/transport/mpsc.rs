//! The channel types of `tokio::sync::mpsc`, as the contracts see them, and
//! the sending half of a transport channel, which remembers the receiving
//! half and the bound that it was made with.
use vstd::prelude::*;

use super::local::{LocalReceiver, SendFailure};

verus! {

#[verifier::external_type_specification]
#[verifier::external_body]
#[verifier::reject_recursive_types(T)]
pub struct ExBoundedSender<T>(tokio::sync::mpsc::Sender<T>);

#[verifier::external_type_specification]
#[verifier::external_body]
#[verifier::reject_recursive_types(T)]
pub struct ExBoundedReceiver<T>(tokio::sync::mpsc::Receiver<T>);

#[verifier::external_type_specification]
#[verifier::external_body]
#[verifier::reject_recursive_types(T)]
pub struct ExUnboundedSender<T>(tokio::sync::mpsc::UnboundedSender<T>);

#[verifier::external_type_specification]
#[verifier::external_body]
#[verifier::reject_recursive_types(T)]
pub struct ExUnboundedReceiver<T>(tokio::sync::mpsc::UnboundedReceiver<T>);

#[verifier::reject_recursive_types(T)]
enum SenderHalf<T> {
    Bounded(tokio::sync::mpsc::Sender<T>),
    Unbounded(tokio::sync::mpsc::UnboundedSender<T>),
}

/// The sending half of a channel of the transport. Besides the sender it
/// holds, as ghost state, the receiving half that `tokio::sync::mpsc` made
/// together with it and the bound the channel was made with (`None` for an
/// unbounded channel). Only the two channel constructors below set them.
#[verifier::reject_recursive_types(T)]
pub struct ChannelSender<T> {
    inner: SenderHalf<T>,
    receiver: Ghost<LocalReceiver<T>>,
    bound: Ghost<Option<usize>>,
}

impl<T> ChannelSender<T> {
    /// Whether the channel is bounded.
    pub closed spec fn is_bounded(&self) -> bool {
        self.inner is Bounded
    }

    /// The receiving half of this sender's channel: what this sender sends,
    /// that half receives.
    pub closed spec fn receiver(&self) -> LocalReceiver<T> {
        self.receiver@
    }

    /// The number of messages the channel was made to hold, `None` for an
    /// unbounded channel.
    pub closed spec fn bound(&self) -> Option<usize> {
        self.bound@
    }

    /// Sends `item`. A failure hands `item` back; an unbounded channel is
    /// never full.
    pub fn send_item(&self, item: T) -> (res: Result<(), SendFailure<T>>)
        ensures
            match res {
                Ok(()) => true,
                Err(f) => f.message() == item && (!self.is_bounded() ==> f is Closed),
            },
    {
        match &self.inner {
            SenderHalf::Bounded(tx) => bounded_try_send(tx, item),
            SenderHalf::Unbounded(tx) => match unbounded_send(tx, item) {
                Ok(()) => Ok(()),
                Err(m) => Err(SendFailure::Closed(m)),
            },
        }
    }

    /// The number of messages that the channel takes at this moment, for a
    /// bounded channel; `None` for an unbounded one.
    pub fn capacity(&self) -> (res: Option<usize>)
        ensures
            match res {
                Some(c) => self.is_bounded() && c <= usize::MAX >> 3,
                None => !self.is_bounded(),
            },
    {
        match &self.inner {
            SenderHalf::Bounded(tx) => Some(bounded_capacity(tx)),
            SenderHalf::Unbounded(_) => None,
        }
    }
}

/// Calls `tokio::sync::mpsc::channel`, which panics when `buffer` is 0 or
/// more than its semaphore's `MAX_PERMITS`, `usize::MAX >> 3`. The sender and
/// the receiver that the one call returns are the two halves of one channel
/// made to hold `buffer` messages; the returned sender records the returned
/// receiver and `buffer`.
#[verifier::external_body]
pub(crate) fn bounded_pair<T>(buffer: usize) -> (res: (ChannelSender<T>, LocalReceiver<T>))
    requires
        0 < buffer <= usize::MAX >> 3,
    ensures
        res.0.is_bounded(),
        res.0.receiver() == res.1,
        res.0.bound() == Some(buffer),
        res.1 is Bounded,
{
    let (tx, rx) = tokio::sync::mpsc::channel(buffer);
    let rx = LocalReceiver::Bounded(rx);
    (ChannelSender { inner: SenderHalf::Bounded(tx), receiver: Ghost(rx), bound: Ghost(Some(buffer)) }, rx)
}

/// Calls `tokio::sync::mpsc::unbounded_channel`. The sender and the receiver
/// that the one call returns are the two halves of one unbounded channel;
/// the returned sender records the returned receiver.
#[verifier::external_body]
pub(crate) fn unbounded_pair<T>() -> (res: (ChannelSender<T>, LocalReceiver<T>))
    ensures
        !res.0.is_bounded(),
        res.0.receiver() == res.1,
        res.0.bound() is None,
        res.1 is Unbounded,
{
    let (tx, rx) = tokio::sync::mpsc::unbounded_channel();
    let rx = LocalReceiver::Unbounded(rx);
    (ChannelSender { inner: SenderHalf::Unbounded(tx), receiver: Ghost(rx), bound: Ghost(None) }, rx)
}

/// Calls `tokio::sync::mpsc::Sender::try_send`. Whether it succeeds depends
/// on the channel's state; its source hands the message back inside either
/// error.
#[verifier::external_body]
fn bounded_try_send<T>(tx: &tokio::sync::mpsc::Sender<T>, message: T) -> (res: Result<(), SendFailure<T>>)
    ensures
        match res {
            Ok(()) => true,
            Err(f) => f.message() == message,
        },
{
    match tx.try_send(message) {
        Ok(()) => Ok(()),
        Err(tokio::sync::mpsc::error::TrySendError::Full(m)) => Err(SendFailure::Full(m)),
        Err(tokio::sync::mpsc::error::TrySendError::Closed(m)) => Err(SendFailure::Closed(m)),
    }
}

/// Calls `tokio::sync::mpsc::UnboundedSender::send`. It fails only when the
/// receiver is gone, and its source hands the message back in the error.
#[verifier::external_body]
fn unbounded_send<T>(tx: &tokio::sync::mpsc::UnboundedSender<T>, message: T) -> (res: Result<(), T>)
    ensures
        match res {
            Ok(()) => true,
            Err(m) => m == message,
        },
{
    match tx.send(message) {
        Ok(()) => Ok(()),
        Err(tokio::sync::mpsc::error::SendError(m)) => Err(m),
    }
}

/// Calls `tokio::sync::mpsc::Sender::capacity`: the number of messages the
/// channel takes at this moment, which depends on its state. It is the
/// count of free permits of the channel's semaphore, which never exceeds
/// the channel's bound, itself at most `usize::MAX >> 3`.
#[verifier::external_body]
fn bounded_capacity<T>(tx: &tokio::sync::mpsc::Sender<T>) -> (res: usize)
    ensures
        res <= usize::MAX >> 3,
{
    tx.capacity()
}

} // verus!
