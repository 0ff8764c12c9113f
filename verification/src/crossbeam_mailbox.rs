//! Crossbeam-based mailboxes for communicating with actors.
use vstd::prelude::*;

use crate::channel::{Receiver, ReceiverFlavor, Sender, SenderFlavor};
use crate::crossbeam_ends::{cb_bounded, cb_unbounded};

pub use crate::crossbeam_ends::{CbReceiverImpl, CbSenderImpl, MAX_BOUNDED_CAPACITY};

verus! {

/// Produces Crossbeam mailboxes for actors: a bounded one of a given capacity, or an
/// unbounded one.
pub struct MailboxFn {
    capacity: Option<usize>,
}

impl MailboxFn {
    /// The capacity of the mailboxes produced, `None` where they are unbounded.
    pub closed spec fn spec_capacity(&self) -> Option<usize> {
        self.capacity
    }

    /// The capacity of the mailboxes produced, `None` where they are unbounded.
    pub fn capacity(&self) -> (c: Option<usize>)
        ensures
            c == self.spec_capacity(),
    {
        self.capacity
    }

    /// Whether a mailbox can be produced: Crossbeam refuses a capacity so large that
    /// its index arithmetic would overflow.
    pub open spec fn can_call(&self) -> bool {
        self.spec_capacity() matches Some(cap) ==> cap <= MAX_BOUNDED_CAPACITY
    }

    /// Creates a new mailbox: both ends of a fresh Crossbeam channel, made with the
    /// capacity of this factory (unbounded where it has none).
    pub fn call<T>(&self) -> (r: (Sender<T>, Receiver<T>))
        requires
            self.can_call(),
        ensures
            r.0.sender_impl is Crossbeam,
            r.1.receiver_impl is Crossbeam,
            r.0.channel() == r.1.channel(),
            r.0.capacity() == self.spec_capacity(),
    {
        let (mailbox_tx, mailbox_rx) = match self.capacity {
            Some(cap) => cb_bounded::<T>(cap),
            None => cb_unbounded::<T>(),
        };
        (
            Sender { sender_impl: SenderFlavor::Crossbeam(mailbox_tx) },
            Receiver { receiver_impl: ReceiverFlavor::Crossbeam(mailbox_rx) },
        )
    }
}

/// Creates a Crossbeam-based bounded mailbox for communicating with an actor.
pub fn bounded_mailbox_fn(cap: usize) -> (f: MailboxFn)
    ensures
        f.spec_capacity() == Some(cap),
{
    MailboxFn { capacity: Some(cap) }
}

/// Creates a Crossbeam-based unbounded mailbox for communicating with an actor.
pub fn unbounded_mailbox_fn() -> (f: MailboxFn)
    ensures
        f.spec_capacity() is None,
{
    MailboxFn { capacity: None }
}

} // verus!
