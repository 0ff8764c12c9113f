//! Tokio-based mailboxes for communicating with actors, and the sending side of
//! the Tokio dispatchers.
use vstd::prelude::*;

use tokio::sync::mpsc::Sender as TkSender;
use tokio::sync::mpsc::UnboundedSender as TkUnboundedSender;

use crate::channel::{gives_back, Receiver, ReceiverFlavor, Sender, SenderFlavor, TrySendError};
use crate::tokio_ends::{send_unbounded, tk_channel, tk_try_send, tk_unbounded_channel};

pub use crate::tokio_ends::{
    TkReceiverImpl, TkSenderImpl, TkUnboundedReceiverImpl, TkUnboundedSenderImpl, MAX_BUFFER,
};

verus! {

/// Produces Tokio mailboxes for actors: bounded ones of a given buffer size, or
/// unbounded ones.
pub struct MailboxFn {
    buffer: Option<usize>,
}

impl MailboxFn {
    /// The buffer size of the mailboxes produced, `None` where they are unbounded.
    pub closed spec fn spec_buffer(&self) -> Option<usize> {
        self.buffer
    }

    /// The buffer size of the mailboxes produced, `None` where they are unbounded.
    pub fn buffer(&self) -> (b: Option<usize>)
        ensures
            b == self.spec_buffer(),
    {
        self.buffer
    }

    /// Whether a mailbox can be produced: Tokio refuses an empty buffer, and one
    /// larger than its semaphore can count.
    pub open spec fn can_call(&self) -> bool {
        self.spec_buffer() matches Some(b) ==> 0 < b <= MAX_BUFFER
    }

    /// Creates a new mailbox: both ends of a fresh Tokio channel, made with the buffer
    /// of this factory (unbounded where it has none).
    pub fn call<T>(&self) -> (r: (Sender<T>, Receiver<T>))
        requires
            self.can_call(),
        ensures
            self.spec_buffer() is Some ==> r.0.sender_impl is Tokio && r.1.receiver_impl is Tokio,
            self.spec_buffer() is None ==> r.0.sender_impl is TokioUnbounded
                && r.1.receiver_impl is TokioUnbounded,
            r.0.channel() == r.1.channel(),
            r.0.capacity() == self.spec_buffer(),
    {
        match self.buffer {
            Some(buffer) => {
                let (mailbox_tx, mailbox_rx) = tk_channel::<T>(buffer);
                (
                    Sender { sender_impl: SenderFlavor::Tokio(mailbox_tx) },
                    Receiver { receiver_impl: ReceiverFlavor::Tokio(mailbox_rx) },
                )
            },
            None => {
                let (mailbox_tx, mailbox_rx) = tk_unbounded_channel::<T>();
                (
                    Sender { sender_impl: SenderFlavor::TokioUnbounded(mailbox_tx) },
                    Receiver { receiver_impl: ReceiverFlavor::TokioUnbounded(mailbox_rx) },
                )
            },
        }
    }
}

/// Creates a Tokio bounded mailbox for communicating with an actor.
pub fn mailbox_fn(buffer: usize) -> (f: MailboxFn)
    ensures
        f.spec_buffer() == Some(buffer),
{
    MailboxFn { buffer: Some(buffer) }
}

/// Creates a Tokio unbounded mailbox for communicating with an actor.
pub fn unbounded_mailbox_fn() -> (f: MailboxFn)
    ensures
        f.spec_buffer() is None,
{
    MailboxFn { buffer: None }
}

/// A Dispatcher for Stage that leverages the Tokio runtime and a bounded command channel.
#[verifier::reject_recursive_types(T)]
pub struct TokioDispatcher<T> {
    pub command_tx: TkSender<T>,
}

impl<T> TokioDispatcher<T> {
    /// Enqueue a command on the channel that the dispatcher runs from; a command
    /// that is not enqueued is handed back.
    pub fn send(&self, command: T) -> (r: Result<(), TrySendError<T>>)
        ensures
            gives_back(r, command),
    {
        tk_try_send(&self.command_tx, command)
    }
}

/// A Dispatcher for Stage that leverages the Tokio runtime and an unbounded command channel.
#[verifier::reject_recursive_types(T)]
pub struct TokioUnboundedDispatcher<T> {
    pub command_tx: TkUnboundedSender<T>,
}

impl<T> TokioUnboundedDispatcher<T> {
    /// Enqueue a command on the channel that the dispatcher runs from; a command
    /// that is not enqueued is handed back, and never because the channel is full.
    pub fn send(&self, command: T) -> (r: Result<(), TrySendError<T>>)
        ensures
            gives_back(r, command),
            !(r matches Err(TrySendError::Full(_))),
    {
        send_unbounded(&self.command_tx, command)
    }
}

} // verus!
