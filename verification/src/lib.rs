//! Stage: a minimal actor model library.
//!
//! The verified core of the library: the channel abstraction that actors are
//! built on, the crossbeam and tokio mailbox providers, the decision logic of
//! the dispatchers that run actors, and the lifecycle of an actor.

pub mod channel;
mod crossbeam_ends;
pub mod crossbeam_mailbox;
mod tokio_ends;
pub mod tokio_mailbox;
pub mod dispatch;
pub mod actor;
