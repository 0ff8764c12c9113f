//! The lifecycle of an actor, and how the reply to an ask is settled.
//!
//! An actor's context carries whether the actor is active. The dispatcher hands
//! the actor each message of its mailbox while it is active; once stopped, the
//! actor receives nothing more and the dispatcher drops it.
use vstd::prelude::*;

use crate::channel::RecvTimeoutError;

verus! {

/// Whether an actor still receives messages.
#[derive(Clone, Copy, Debug)]
pub struct Activity {
    active: bool,
}

/// What becomes of a message taken from an actor's mailbox.
#[derive(PartialEq, Eq, Clone, Copy, Debug)]
pub enum Delivery {
    /// The actor receives it.
    Receive,
    /// It is not of the actor's message type: it is logged and dropped.
    Unexpected,
    /// The actor has stopped: it is dropped unseen.
    Skip,
}

/// The delivery of a message to an actor that is `active` or not, where
/// `recognised` tells whether the message is of the actor's type.
pub open spec fn delivery_spec(active: bool, recognised: bool) -> Delivery {
    if !active {
        Delivery::Skip
    } else if recognised {
        Delivery::Receive
    } else {
        Delivery::Unexpected
    }
}

impl Activity {
    /// Whether the actor is active.
    pub closed spec fn active(self) -> bool {
        self.active
    }

    /// A new actor is active.
    pub fn new() -> (a: Self)
        ensures
            a.active(),
    {
        Activity { active: true }
    }

    /// Whether the actor is active.
    pub fn is_active(&self) -> (b: bool)
        ensures
            b == self.active(),
    {
        self.active
    }

    /// Stop this actor immediately.
    pub fn stop(&mut self)
        ensures
            !final(self).active(),
    {
        self.active = false;
    }

    /// What becomes of a message taken from the actor's mailbox.
    pub fn deliver(&self, recognised: bool) -> (d: Delivery)
        ensures
            d == delivery_spec(self.active(), recognised),
    {
        if !self.active {
            Delivery::Skip
        } else if recognised {
            Delivery::Receive
        } else {
            Delivery::Unexpected
        }
    }
}

/// Stopping takes effect at once: once `stop` has run, the actor receives no further
/// message, whatever its type, and stopping again leaves it stopped.
pub proof fn lemma_stopped_actor_receives_nothing(actor: Activity, recognised: bool)
    requires
        !actor.active(),
    ensures
        delivery_spec(actor.active(), recognised) == Delivery::Skip,
{
}

/// An active actor receives every message of its type, and only those.
pub proof fn lemma_active_actor_receives_its_messages(actor: Activity, recognised: bool)
    requires
        actor.active(),
    ensures
        (delivery_spec(actor.active(), recognised) == Delivery::Receive) <==> recognised,
{
}

/// Settles an ask from what waiting for the reply gave: the reply, taken as the
/// expected type where it is one (`Some`), or the error of the wait. A reply of
/// another type is reported as a timeout.
pub fn ask_outcome<R>(reply: Result<Option<R>, RecvTimeoutError>) -> (r: Result<R, RecvTimeoutError>)
    ensures
        match reply {
            Ok(Some(v)) => r == Ok::<R, RecvTimeoutError>(v),
            Ok(None) => r == Err::<R, RecvTimeoutError>(RecvTimeoutError::Timeout),
            Err(e) => r == Err::<R, RecvTimeoutError>(e),
        },
{
    match reply {
        Ok(Some(v)) => Ok(v),
        Ok(None) => Err(RecvTimeoutError::Timeout),
        Err(e) => Err(e),
    }
}

} // verus!
