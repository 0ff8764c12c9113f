//! Provides an abstraction over the channels that the actor library runs on.
//!
//! The declarations and their documentation follow those of Crossbeam, which
//! apply across the popular runtimes including Tokio.
use vstd::prelude::*;

use crate::crossbeam_mailbox::{CbReceiverImpl, CbSenderImpl};
use crate::tokio_mailbox::{
    TkReceiverImpl, TkSenderImpl, TkUnboundedReceiverImpl, TkUnboundedSenderImpl,
};

verus! {

/// An error returned from the `recv` method.
#[derive(PartialEq, Eq, Clone, Copy, Debug)]
pub struct RecvError;

impl RecvError {
    /// The human readable description of this error.
    pub fn to_string(&self) -> (s: String)
        ensures
            s@ == "receiving on an empty and disconnected channel"@,
    {
        "receiving on an empty and disconnected channel".to_owned()
    }
}

/// An error returned from the `recv_timeout` method.
#[derive(PartialEq, Eq, Clone, Copy, Debug)]
pub enum RecvTimeoutError {
    /// A message could not be received because the channel is empty and the operation timed out.
    ///
    /// If this is a zero-capacity channel, then the error indicates that there was no sender
    /// available to send a message and the operation timed out.
    Timeout,
    /// The message could not be received because the channel is empty and disconnected.
    Disconnected,
}

impl RecvTimeoutError {
    /// The human readable description of this error.
    pub fn to_string(&self) -> (s: String)
        ensures
            *self is Timeout ==> s@ == "timed out waiting on receive operation"@,
            *self is Disconnected ==> s@ == "channel is empty and disconnected"@,
    {
        match self {
            RecvTimeoutError::Timeout => "timed out waiting on receive operation".to_owned(),
            RecvTimeoutError::Disconnected => "channel is empty and disconnected".to_owned(),
        }
    }
}

/// An error returned from the `try_send` method.
///
/// The error contains the message being sent so it can be recovered.
#[derive(PartialEq, Eq, Clone, Copy, Debug)]
pub enum TrySendError<T> {
    /// The message could not be sent because the channel is full.
    ///
    /// If this is a zero-capacity channel, then the error indicates that there was no receiver
    /// available to receive the message at the time.
    Full(T),
    /// The message could not be sent because the channel is disconnected.
    Disconnected(T),
}

impl<T> TrySendError<T> {
    /// The message that could not be sent.
    pub open spec fn message(self) -> T {
        match self {
            TrySendError::Full(m) => m,
            TrySendError::Disconnected(m) => m,
        }
    }

    /// The human readable description of this error.
    pub fn to_string(&self) -> (s: String)
        ensures
            *self is Full ==> s@ == "sending on a full channel"@,
            *self is Disconnected ==> s@ == "sending on a disconnected channel"@,
    {
        match self {
            TrySendError::Full(..) => "sending on a full channel".to_owned(),
            TrySendError::Disconnected(..) => "sending on a disconnected channel".to_owned(),
        }
    }
}

/// What every attempt to send promises: a message that is not sent comes back
/// unchanged inside the error.
pub open spec fn gives_back<T>(r: Result<(), TrySendError<T>>, msg: T) -> bool {
    match r {
        Ok(()) => true,
        Err(e) => e.message() == msg,
    }
}

/// An error returned from the `try_recv` method.
#[derive(PartialEq, Eq, Clone, Copy, Debug)]
pub enum TryRecvError {
    /// A message could not be received because the channel is empty.
    ///
    /// If this is a zero-capacity channel, then the error indicates that there was no sender
    /// available to send a message at the time.
    Empty,
    /// The message could not be received because the channel is empty and disconnected.
    Disconnected,
}

impl TryRecvError {
    /// The human readable description of this error.
    pub fn to_string(&self) -> (s: String)
        ensures
            *self is Empty ==> s@ == "receiving on an empty channel"@,
            *self is Disconnected ==> s@ == "receiving on an empty and disconnected channel"@,
    {
        match self {
            TryRecvError::Empty => "receiving on an empty channel".to_owned(),
            TryRecvError::Disconnected => "receiving on an empty and disconnected channel".to_owned(),
        }
    }
}

/// Required to be implemented by the provider of a channel: its sending side.
pub trait SenderImpl<T>: Sized {
    /// Provide a cloning function: another handle on the same channel.
    fn clone(&self) -> Self;

    /// Provide a try_send function. A message that is not sent is handed back.
    fn try_send(&self, msg: T) -> (r: Result<(), TrySendError<T>>)
        ensures
            gives_back(r, msg),
    ;
}

/// Required to be implemented by the provider of a channel: its receiving side.
pub trait ReceiverImpl<T> {
    /// Provide a try_recv function.
    fn try_recv(&mut self) -> Result<T, TryRecvError>;
}

/// The channel providers that a sender can be backed by.
#[verifier::reject_recursive_types(T)]
pub enum SenderFlavor<T> {
    /// A Crossbeam channel, bounded or not.
    Crossbeam(CbSenderImpl<T>),
    /// A bounded Tokio channel.
    Tokio(TkSenderImpl<T>),
    /// An unbounded Tokio channel.
    TokioUnbounded(TkUnboundedSenderImpl<T>),
}

/// The channel providers that a receiver can be backed by.
#[verifier::reject_recursive_types(T)]
pub enum ReceiverFlavor<T> {
    /// A Crossbeam channel, bounded or not.
    Crossbeam(CbReceiverImpl<T>),
    /// A bounded Tokio channel.
    Tokio(TkReceiverImpl<T>),
    /// An unbounded Tokio channel.
    TokioUnbounded(TkUnboundedReceiverImpl<T>),
}

/// The sending side of a channel.
#[verifier::reject_recursive_types(T)]
pub struct Sender<T> {
    pub sender_impl: SenderFlavor<T>,
}

impl<T> Sender<T> {
    /// The channel this sender sends into.
    pub open spec fn channel(&self) -> int {
        match self.sender_impl {
            SenderFlavor::Crossbeam(s) => s.channel(),
            SenderFlavor::Tokio(s) => s.channel(),
            SenderFlavor::TokioUnbounded(s) => s.channel(),
        }
    }

    /// The capacity the channel was made with, `None` where it is unbounded.
    pub open spec fn capacity(&self) -> Option<usize> {
        match self.sender_impl {
            SenderFlavor::Crossbeam(s) => s.capacity(),
            SenderFlavor::Tokio(s) => Some(s.buffer()),
            SenderFlavor::TokioUnbounded(_) => None,
        }
    }

    /// Whether the channel never refuses a message as full: an unbounded channel.
    pub open spec fn never_full(&self) -> bool {
        self.capacity() is None
    }

    /// Attempts to send a message into the channel without blocking.
    ///
    /// This method will either send a message into the channel immediately or return an error if
    /// the channel is full or disconnected. The returned error contains the original message.
    ///
    /// If called on a zero-capacity channel, this method will send the message only if there
    /// happens to be a receive operation on the other side of the channel at the same time.
    pub fn try_send(&self, msg: T) -> (r: Result<(), TrySendError<T>>)
        ensures
            gives_back(r, msg),
            self.never_full() ==> !(r matches Err(TrySendError::Full(_))),
    {
        match &self.sender_impl {
            SenderFlavor::Crossbeam(s) => s.try_send(msg),
            SenderFlavor::Tokio(s) => s.try_send(msg),
            SenderFlavor::TokioUnbounded(s) => s.try_send(msg),
        }
    }
}

impl<T> Clone for Sender<T> {
    /// Another sender on the same channel, backed by the same provider.
    fn clone(&self) -> (r: Self)
        ensures
            r.channel() == self.channel(),
            r.capacity() == self.capacity(),
            self.sender_impl is Crossbeam <==> r.sender_impl is Crossbeam,
            self.sender_impl is Tokio <==> r.sender_impl is Tokio,
            self.sender_impl is TokioUnbounded <==> r.sender_impl is TokioUnbounded,
    {
        let sender_impl = match &self.sender_impl {
            SenderFlavor::Crossbeam(s) => SenderFlavor::Crossbeam(s.clone()),
            SenderFlavor::Tokio(s) => SenderFlavor::Tokio(s.clone()),
            SenderFlavor::TokioUnbounded(s) => SenderFlavor::TokioUnbounded(s.clone()),
        };
        Sender { sender_impl }
    }
}

/// The receiving side of a channel.
#[verifier::reject_recursive_types(T)]
pub struct Receiver<T> {
    pub receiver_impl: ReceiverFlavor<T>,
}

impl<T> Receiver<T> {
    /// The channel this receiver receives from.
    pub open spec fn channel(&self) -> int {
        match self.receiver_impl {
            ReceiverFlavor::Crossbeam(r) => r.channel(),
            ReceiverFlavor::Tokio(r) => r.channel(),
            ReceiverFlavor::TokioUnbounded(r) => r.channel(),
        }
    }

    /// Attempts to receive a message from the channel without blocking.
    pub fn try_recv(&mut self) -> Result<T, TryRecvError> {
        match &mut self.receiver_impl {
            ReceiverFlavor::Crossbeam(r) => r.try_recv(),
            ReceiverFlavor::Tokio(r) => r.try_recv(),
            ReceiverFlavor::TokioUnbounded(r) => r.try_recv(),
        }
    }
}

} // verus!
