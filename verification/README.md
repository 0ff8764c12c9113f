# Stage

A minimal actor model library, verified with Verus.

- `src/` is the verified library:
  - `channel`: the channel abstraction actors are built on: `Sender`, `Receiver`,
    the provider traits `SenderImpl` / `ReceiverImpl`, and the channel errors.
  - `crossbeam_mailbox`, `tokio_mailbox`: mailboxes backed by Crossbeam and Tokio
    channels, and the sending side of the Tokio dispatchers.
  - `dispatch`: what the work-stealing and the Tokio dispatchers decide about each
    thing that arrives, with the laws that keep an actor to one message at a time.
  - `actor`: an actor's lifecycle (active until stopped) and how an ask is settled.
- `app/` holds the type-erased actor layer (`ActorContext`, `ActorRef`, actions as
  closures over `Box<dyn Any + Send>`) and the run loops of the dispatchers, which
  wait on channels and executors and ask the library what to do.
- `tests/` exercises the library with real channels.
