//! The two ends of a Tokio channel, and the calls into Tokio.
//!
//! The ends record which channel they belong to and, for a bounded sender, the
//! buffer the channel was made with. Only the calls that make a channel or clone a
//! sender set these records, so what they say is what Tokio was asked for.
use vstd::prelude::*;

use tokio::sync::mpsc::Receiver as TkReceiver;
use tokio::sync::mpsc::Sender as TkSender;
use tokio::sync::mpsc::UnboundedReceiver as TkUnboundedReceiver;
use tokio::sync::mpsc::UnboundedSender as TkUnboundedSender;

use crate::channel::{gives_back, ReceiverImpl, SenderImpl, TryRecvError, TrySendError};

verus! {

/// Declares `tokio::sync::mpsc::Sender`, held opaque: nothing is known of what it holds.
#[verifier::external_type_specification]
#[verifier::external_body]
#[verifier::reject_recursive_types(T)]
pub struct ExTkSender<T>(TkSender<T>);

/// Declares `tokio::sync::mpsc::Receiver`, held opaque: nothing is known of what it holds.
#[verifier::external_type_specification]
#[verifier::external_body]
#[verifier::reject_recursive_types(T)]
pub struct ExTkReceiver<T>(TkReceiver<T>);

/// Declares `tokio::sync::mpsc::UnboundedSender`, held opaque: nothing is known of what it holds.
#[verifier::external_type_specification]
#[verifier::external_body]
#[verifier::reject_recursive_types(T)]
pub struct ExTkUnboundedSender<T>(TkUnboundedSender<T>);

/// Declares `tokio::sync::mpsc::UnboundedReceiver`, held opaque: nothing is known of what it holds.
#[verifier::external_type_specification]
#[verifier::external_body]
#[verifier::reject_recursive_types(T)]
pub struct ExTkUnboundedReceiver<T>(TkUnboundedReceiver<T>);

/// The largest buffer that `tokio::sync::mpsc::channel` accepts: its semaphore
/// holds at most `usize::MAX >> 3` permits.
pub const MAX_BUFFER: usize = usize::MAX / 8;

/// Calls `tokio::sync::mpsc::channel`, which creates a channel that buffers up to
/// `buffer` messages, and wraps its two ends: they are recorded as ends of one
/// channel, and the sender as made with that buffer. It panics when `buffer` is 0
/// or above its semaphore's maximum (`usize::MAX >> 3`), so those are left out.
/// Nothing is claimed of what the channel holds: its state is shared with other tasks.
#[verifier::external_body]
pub(crate) fn tk_channel<T>(buffer: usize) -> (r: (TkSenderImpl<T>, TkReceiverImpl<T>))
    requires
        0 < buffer <= MAX_BUFFER,
    ensures
        r.0.channel() == r.1.channel(),
        r.0.buffer() == buffer,
{
    let (sender, receiver) = tokio::sync::mpsc::channel(buffer);
    let channel: Ghost<int> = Ghost(vstd::pervasive::arbitrary());
    (TkSenderImpl { sender, channel, buffer: Ghost(buffer) }, TkReceiverImpl { receiver, channel })
}

/// Calls `tokio::sync::mpsc::unbounded_channel`, which creates a channel of unbounded
/// capacity, and wraps its two ends: they are recorded as ends of one channel.
#[verifier::external_body]
pub(crate) fn tk_unbounded_channel<T>() -> (r: (TkUnboundedSenderImpl<T>, TkUnboundedReceiverImpl<T>))
    ensures
        r.0.channel() == r.1.channel(),
{
    let (sender, receiver) = tokio::sync::mpsc::unbounded_channel();
    let channel: Ghost<int> = Ghost(vstd::pervasive::arbitrary());
    (TkUnboundedSenderImpl { sender, channel }, TkUnboundedReceiverImpl { receiver, channel })
}

/// Calls `Clone::clone` on a `tokio::sync::mpsc::Sender`, which gives another handle
/// on the same channel; the record of that channel and of its buffer is kept.
#[verifier::external_body]
fn tk_sender_clone<T>(sender: &TkSenderImpl<T>) -> (r: TkSenderImpl<T>)
    ensures
        r.channel() == sender.channel(),
        r.buffer() == sender.buffer(),
{
    TkSenderImpl { sender: sender.sender.clone(), channel: sender.channel, buffer: sender.buffer }
}

/// Calls `Clone::clone` on a `tokio::sync::mpsc::UnboundedSender`, which gives another
/// handle on the same channel; the record of that channel is kept.
#[verifier::external_body]
fn tk_unbounded_sender_clone<T>(sender: &TkUnboundedSenderImpl<T>) -> (r: TkUnboundedSenderImpl<T>)
    ensures
        r.channel() == sender.channel(),
{
    TkUnboundedSenderImpl { sender: sender.sender.clone(), channel: sender.channel }
}

/// Calls `tokio::sync::mpsc::Sender::try_send`. Its source returns the message it
/// could not send inside the error, as `Full` when no permit is left and as
/// `Closed` (here `Disconnected`) when the receiver is gone; which happens
/// depends on the other tasks using the channel.
#[verifier::external_body]
pub(crate) fn tk_try_send<T>(sender: &TkSender<T>, msg: T) -> (r: Result<(), TrySendError<T>>)
    ensures
        gives_back(r, msg),
{
    match sender.try_send(msg) {
        Ok(()) => Ok(()),
        Err(tokio::sync::mpsc::error::TrySendError::Full(m)) => Err(TrySendError::Full(m)),
        Err(tokio::sync::mpsc::error::TrySendError::Closed(m)) => Err(TrySendError::Disconnected(m)),
    }
}

/// Calls `tokio::sync::mpsc::UnboundedSender::send`, which never waits: it fails only
/// when the receiver is gone, and then hands back the message (taken out of its
/// `SendError` here).
#[verifier::external_body]
fn tk_unbounded_send<T>(sender: &TkUnboundedSender<T>, msg: T) -> (r: Result<(), T>)
    ensures
        r matches Err(m) ==> m == msg,
{
    match sender.send(msg) {
        Ok(()) => Ok(()),
        Err(tokio::sync::mpsc::error::SendError(m)) => Err(m),
    }
}

/// Calls `tokio::sync::mpsc::Receiver::try_recv`. What it returns depends on the
/// other tasks using the channel, so nothing is claimed of it.
#[verifier::external_body]
fn tk_try_recv<T>(receiver: &mut TkReceiver<T>) -> Result<T, TryRecvError> {
    match receiver.try_recv() {
        Ok(m) => Ok(m),
        Err(tokio::sync::mpsc::error::TryRecvError::Empty) => Err(TryRecvError::Empty),
        Err(tokio::sync::mpsc::error::TryRecvError::Disconnected) => Err(TryRecvError::Disconnected),
    }
}

/// Calls `tokio::sync::mpsc::UnboundedReceiver::try_recv`. What it returns depends
/// on the other tasks using the channel, so nothing is claimed of it.
#[verifier::external_body]
fn tk_unbounded_try_recv<T>(receiver: &mut TkUnboundedReceiver<T>) -> Result<T, TryRecvError> {
    match receiver.try_recv() {
        Ok(m) => Ok(m),
        Err(tokio::sync::mpsc::error::TryRecvError::Empty) => Err(TryRecvError::Empty),
        Err(tokio::sync::mpsc::error::TryRecvError::Disconnected) => Err(TryRecvError::Disconnected),
    }
}

/// Sends on an unbounded Tokio channel: a message that is not sent comes back as
/// `Disconnected`, never as `Full`.
pub(crate) fn send_unbounded<T>(sender: &TkUnboundedSender<T>, msg: T) -> (r: Result<(), TrySendError<T>>)
    ensures
        gives_back(r, msg),
        !(r matches Err(TrySendError::Full(_))),
{
    match tk_unbounded_send(sender, msg) {
        Ok(()) => Ok(()),
        Err(m) => Err(TrySendError::Disconnected(m)),
    }
}

/// The sending side of a bounded Tokio channel. It is made only with the channel, or
/// as a clone of another sender, so that it records which channel it sends into and
/// the buffer that channel was made with.
#[verifier::reject_recursive_types(T)]
pub struct TkSenderImpl<T> {
    sender: TkSender<T>,
    channel: Ghost<int>,
    buffer: Ghost<usize>,
}

impl<T> TkSenderImpl<T> {
    /// The channel this sender sends into.
    pub closed spec fn channel(&self) -> int {
        self.channel@
    }

    /// The buffer size the channel was made with.
    pub closed spec fn buffer(&self) -> usize {
        self.buffer@
    }
}

impl<T> SenderImpl<T> for TkSenderImpl<T> {
    fn clone(&self) -> (r: Self)
        ensures
            r.channel() == self.channel(),
            r.buffer() == self.buffer(),
    {
        tk_sender_clone(self)
    }

    fn try_send(&self, msg: T) -> (r: Result<(), TrySendError<T>>) {
        tk_try_send(&self.sender, msg)
    }
}

/// The receiving side of a bounded Tokio channel.
#[verifier::reject_recursive_types(T)]
pub struct TkReceiverImpl<T> {
    receiver: TkReceiver<T>,
    channel: Ghost<int>,
}

impl<T> TkReceiverImpl<T> {
    /// The channel this receiver receives from.
    pub closed spec fn channel(&self) -> int {
        self.channel@
    }

    /// The Tokio receiver itself.
    pub closed spec fn inner(&self) -> TkReceiver<T> {
        self.receiver
    }

    /// Gives up the wrapping: the Tokio receiver itself.
    pub fn into_inner(self) -> (r: TkReceiver<T>)
        ensures
            r == self.inner(),
    {
        self.receiver
    }
}

impl<T> ReceiverImpl<T> for TkReceiverImpl<T> {
    fn try_recv(&mut self) -> Result<T, TryRecvError> {
        tk_try_recv(&mut self.receiver)
    }
}

/// The sending side of an unbounded Tokio channel. It is made only with the channel,
/// or as a clone of another sender, so that it records which channel it sends into.
#[verifier::reject_recursive_types(T)]
pub struct TkUnboundedSenderImpl<T> {
    sender: TkUnboundedSender<T>,
    channel: Ghost<int>,
}

impl<T> TkUnboundedSenderImpl<T> {
    /// The channel this sender sends into.
    pub closed spec fn channel(&self) -> int {
        self.channel@
    }
}

impl<T> SenderImpl<T> for TkUnboundedSenderImpl<T> {
    fn clone(&self) -> (r: Self)
        ensures
            r.channel() == self.channel(),
    {
        tk_unbounded_sender_clone(self)
    }

    fn try_send(&self, msg: T) -> (r: Result<(), TrySendError<T>>)
        ensures
            !(r matches Err(TrySendError::Full(_))),
    {
        send_unbounded(&self.sender, msg)
    }
}

/// The receiving side of an unbounded Tokio channel.
#[verifier::reject_recursive_types(T)]
pub struct TkUnboundedReceiverImpl<T> {
    receiver: TkUnboundedReceiver<T>,
    channel: Ghost<int>,
}

impl<T> TkUnboundedReceiverImpl<T> {
    /// The channel this receiver receives from.
    pub closed spec fn channel(&self) -> int {
        self.channel@
    }

    /// The Tokio receiver itself.
    pub closed spec fn inner(&self) -> TkUnboundedReceiver<T> {
        self.receiver
    }

    /// Gives up the wrapping: the Tokio receiver itself.
    pub fn into_inner(self) -> (r: TkUnboundedReceiver<T>)
        ensures
            r == self.inner(),
    {
        self.receiver
    }
}

impl<T> ReceiverImpl<T> for TkUnboundedReceiverImpl<T> {
    fn try_recv(&mut self) -> Result<T, TryRecvError> {
        tk_unbounded_try_recv(&mut self.receiver)
    }
}

} // verus!
