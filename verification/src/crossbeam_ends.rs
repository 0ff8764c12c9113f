//! The two ends of a Crossbeam channel, and the calls into Crossbeam.
//!
//! The ends record which channel they belong to and, for the sender, the capacity
//! the channel was made with. Only the calls that make a channel or clone a sender
//! set these records, so what they say is what Crossbeam was asked for.
use vstd::prelude::*;

use crossbeam_channel::Receiver as CbReceiver;
use crossbeam_channel::Sender as CbSender;
use std::time::Duration;

use crate::channel::{gives_back, ReceiverImpl, RecvTimeoutError, SenderImpl, TryRecvError, TrySendError};

verus! {

/// Declares `crossbeam_channel::Sender`, held opaque: nothing is known of what it holds.
#[verifier::external_type_specification]
#[verifier::external_body]
#[verifier::reject_recursive_types(T)]
pub struct ExCbSender<T>(CbSender<T>);

/// Declares `crossbeam_channel::Receiver`, held opaque: nothing is known of what it holds.
#[verifier::external_type_specification]
#[verifier::external_body]
#[verifier::reject_recursive_types(T)]
pub struct ExCbReceiver<T>(CbReceiver<T>);

/// The largest capacity taken for `crossbeam_channel::bounded`: on 64-bit targets
/// a larger one overflows the channel's index arithmetic and it panics ("bounded
/// channel capacity is too large"); the same bound is kept on other targets.
pub const MAX_BOUNDED_CAPACITY: usize = usize::MAX / 4;

/// Calls `crossbeam_channel::bounded`, which creates a channel that holds at
/// most `cap` messages (none at all, a rendezvous channel, when `cap` is 0), and
/// wraps its two ends. The ends are recorded as ends of one channel, and the
/// sender as made with capacity `cap`. Nothing is claimed of what the channel
/// holds: its state is shared with other threads.
#[verifier::external_body]
pub(crate) fn cb_bounded<T>(cap: usize) -> (r: (CbSenderImpl<T>, CbReceiverImpl<T>))
    requires
        cap <= MAX_BOUNDED_CAPACITY,
    ensures
        r.0.channel() == r.1.channel(),
        r.0.capacity() == Some(cap),
{
    let (sender, receiver) = crossbeam_channel::bounded(cap);
    let channel: Ghost<int> = Ghost(vstd::pervasive::arbitrary());
    (
        CbSenderImpl { sender, channel, capacity: Ghost(Some(cap)) },
        CbReceiverImpl { receiver, channel },
    )
}

/// Calls `crossbeam_channel::unbounded`, which creates a channel of unbounded
/// capacity, and wraps its two ends: they are recorded as ends of one channel,
/// and the sender as made without a capacity.
#[verifier::external_body]
pub(crate) fn cb_unbounded<T>() -> (r: (CbSenderImpl<T>, CbReceiverImpl<T>))
    ensures
        r.0.channel() == r.1.channel(),
        r.0.capacity() == None::<usize>,
{
    let (sender, receiver) = crossbeam_channel::unbounded();
    let channel: Ghost<int> = Ghost(vstd::pervasive::arbitrary());
    (
        CbSenderImpl { sender, channel, capacity: Ghost(None) },
        CbReceiverImpl { receiver, channel },
    )
}

/// Calls `Clone::clone` on a `crossbeam_channel::Sender`, which gives another handle
/// on the same channel; the record of that channel and of its capacity is kept.
#[verifier::external_body]
fn cb_sender_clone<T>(sender: &CbSenderImpl<T>) -> (r: CbSenderImpl<T>)
    ensures
        r.channel() == sender.channel(),
        r.capacity() == sender.capacity(),
{
    CbSenderImpl { sender: sender.sender.clone(), channel: sender.channel, capacity: sender.capacity }
}

/// Calls `crossbeam_channel::Sender::try_send`. Its source returns the message
/// it could not send inside the error, in either variant, and a channel made by
/// `unbounded` (the list flavour, recorded here as made without a capacity) only
/// ever refuses a message as disconnected; both are claimed. Whether the message
/// is sent depends on the other threads using the channel.
#[verifier::external_body]
fn cb_try_send<T>(sender: &CbSenderImpl<T>, msg: T) -> (r: Result<(), TrySendError<T>>)
    ensures
        gives_back(r, msg),
        sender.capacity() is None ==> !(r matches Err(TrySendError::Full(_))),
{
    match sender.sender.try_send(msg) {
        Ok(()) => Ok(()),
        Err(crossbeam_channel::TrySendError::Full(m)) => Err(TrySendError::Full(m)),
        Err(crossbeam_channel::TrySendError::Disconnected(m)) => Err(TrySendError::Disconnected(m)),
    }
}

/// Calls `crossbeam_channel::Receiver::try_recv`. What it returns depends on the
/// other threads using the channel, so nothing is claimed of it.
#[verifier::external_body]
fn cb_try_recv<T>(receiver: &CbReceiver<T>) -> Result<T, TryRecvError> {
    match receiver.try_recv() {
        Ok(m) => Ok(m),
        Err(crossbeam_channel::TryRecvError::Empty) => Err(TryRecvError::Empty),
        Err(crossbeam_channel::TryRecvError::Disconnected) => Err(TryRecvError::Disconnected),
    }
}

/// Calls `crossbeam_channel::Receiver::recv_timeout`, which waits for a message
/// for at most `timeout`. What it returns depends on the other threads using the
/// channel and on the time, so nothing is claimed of it.
#[verifier::external_body]
fn cb_recv_timeout<T>(receiver: &CbReceiver<T>, timeout: Duration) -> Result<T, RecvTimeoutError> {
    match receiver.recv_timeout(timeout) {
        Ok(m) => Ok(m),
        Err(crossbeam_channel::RecvTimeoutError::Timeout) => Err(RecvTimeoutError::Timeout),
        Err(crossbeam_channel::RecvTimeoutError::Disconnected) => Err(RecvTimeoutError::Disconnected),
    }
}

/// The sending side of a Crossbeam channel. It is made only with the channel, or as
/// a clone of another sender, so that it records which channel it sends into and the
/// capacity that channel was made with.
#[verifier::reject_recursive_types(T)]
pub struct CbSenderImpl<T> {
    sender: CbSender<T>,
    channel: Ghost<int>,
    capacity: Ghost<Option<usize>>,
}

impl<T> CbSenderImpl<T> {
    /// The channel this sender sends into.
    pub closed spec fn channel(&self) -> int {
        self.channel@
    }

    /// The capacity the channel was made with, `None` where it is unbounded.
    pub closed spec fn capacity(&self) -> Option<usize> {
        self.capacity@
    }

    /// The Crossbeam sender itself.
    pub closed spec fn inner(&self) -> CbSender<T> {
        self.sender
    }

    /// The Crossbeam sender itself.
    pub fn sender(&self) -> (r: &CbSender<T>)
        ensures
            *r == self.inner(),
    {
        &self.sender
    }
}

impl<T> SenderImpl<T> for CbSenderImpl<T> {
    fn clone(&self) -> (r: Self)
        ensures
            r.channel() == self.channel(),
            r.capacity() == self.capacity(),
    {
        cb_sender_clone(self)
    }

    fn try_send(&self, msg: T) -> (r: Result<(), TrySendError<T>>)
        ensures
            self.capacity() is None ==> !(r matches Err(TrySendError::Full(_))),
    {
        cb_try_send(self, msg)
    }
}

/// The receiving side of a Crossbeam channel.
#[verifier::reject_recursive_types(T)]
pub struct CbReceiverImpl<T> {
    receiver: CbReceiver<T>,
    channel: Ghost<int>,
}

impl<T> CbReceiverImpl<T> {
    /// The channel this receiver receives from.
    pub closed spec fn channel(&self) -> int {
        self.channel@
    }

    /// The Crossbeam receiver itself.
    pub closed spec fn inner(&self) -> CbReceiver<T> {
        self.receiver
    }

    /// Takes a Crossbeam receiver made elsewhere; which channel it belongs to is not
    /// recorded.
    pub fn from_receiver(receiver: CbReceiver<T>) -> (r: Self)
        ensures
            r.inner() == receiver,
    {
        CbReceiverImpl { receiver, channel: Ghost(vstd::pervasive::arbitrary()) }
    }

    /// The Crossbeam receiver itself.
    pub fn receiver(&self) -> (r: &CbReceiver<T>)
        ensures
            *r == self.inner(),
    {
        &self.receiver
    }

    /// Waits for a message for at most `timeout`.
    pub fn recv_timeout(&self, timeout: Duration) -> Result<T, RecvTimeoutError> {
        cb_recv_timeout(&self.receiver, timeout)
    }
}

impl<T> ReceiverImpl<T> for CbReceiverImpl<T> {
    fn try_recv(&mut self) -> Result<T, TryRecvError> {
        cb_try_recv(&self.receiver)
    }
}

} // verus!
