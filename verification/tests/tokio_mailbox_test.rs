use stage::channel::{ReceiverFlavor, SenderFlavor, TryRecvError, TrySendError};
use stage::tokio_mailbox::{mailbox_fn, unbounded_mailbox_fn, TokioDispatcher, TokioUnboundedDispatcher};

#[test]
fn tokio_bounded_mailbox_refuses_when_full() {
    let (tx, mut rx) = mailbox_fn(1).call::<u32>();
    assert!(matches!(tx.sender_impl, SenderFlavor::Tokio(_)));
    assert!(matches!(rx.receiver_impl, ReceiverFlavor::Tokio(_)));
    assert_eq!(tx.try_send(1), Ok(()));
    assert_eq!(tx.try_send(2), Err(TrySendError::Full(2)));
    assert_eq!(rx.try_recv(), Ok(1));
    assert_eq!(rx.try_recv(), Err(TryRecvError::Empty));
}

#[test]
fn tokio_closed_mailbox_is_disconnected() {
    let (tx, rx) = mailbox_fn(4).call::<u32>();
    drop(rx);
    assert_eq!(tx.try_send(9), Err(TrySendError::Disconnected(9)));
}

#[test]
fn tokio_unbounded_mailbox_never_full() {
    let (tx, mut rx) = unbounded_mailbox_fn().call::<u32>();
    assert!(matches!(tx.sender_impl, SenderFlavor::TokioUnbounded(_)));
    for i in 0..10_000 {
        assert_eq!(tx.try_send(i), Ok(()));
    }
    assert_eq!(rx.try_recv(), Ok(0));
    drop(rx);
    assert_eq!(tx.try_send(1), Err(TrySendError::Disconnected(1)));
}

#[test]
fn tokio_cloned_sender_shares_the_channel() {
    let (tx, mut rx) = mailbox_fn(2).call::<u8>();
    let tx2 = tx.clone();
    assert!(matches!(tx2.sender_impl, SenderFlavor::Tokio(_)));
    assert_eq!(tx2.try_send(1), Ok(()));
    assert_eq!(tx.try_send(2), Ok(()));
    assert_eq!(tx2.try_send(3), Err(TrySendError::Full(3)));
    assert_eq!(rx.try_recv(), Ok(1));
    assert_eq!(rx.try_recv(), Ok(2));
    drop(tx);
    drop(tx2);
    assert_eq!(rx.try_recv(), Err(TryRecvError::Disconnected));
}

#[test]
fn tokio_dispatcher_send_outcomes() {
    let (command_tx, mut command_rx) = tokio::sync::mpsc::channel::<&str>(1);
    let dispatcher = TokioDispatcher { command_tx };
    assert_eq!(dispatcher.send("select"), Ok(()));
    assert_eq!(dispatcher.send("stop"), Err(TrySendError::Full("stop")));
    assert_eq!(command_rx.try_recv(), Ok("select"));
    drop(command_rx);
    assert_eq!(dispatcher.send("stop"), Err(TrySendError::Disconnected("stop")));
}

#[test]
fn tokio_unbounded_dispatcher_send_outcomes() {
    let (command_tx, mut command_rx) = tokio::sync::mpsc::unbounded_channel::<u32>();
    let dispatcher = TokioUnboundedDispatcher { command_tx };
    for i in 0..100 {
        assert_eq!(dispatcher.send(i), Ok(()));
    }
    assert_eq!(command_rx.try_recv(), Ok(0));
    drop(command_rx);
    assert_eq!(dispatcher.send(5), Err(TrySendError::Disconnected(5)));
}

#[test]
fn tokio_unbounded_cloned_sender_shares_the_channel() {
    let (tx, mut rx) = unbounded_mailbox_fn().call::<u8>();
    let tx2 = tx.clone();
    assert!(matches!(tx2.sender_impl, SenderFlavor::TokioUnbounded(_)));
    assert_eq!(tx2.try_send(1), Ok(()));
    assert_eq!(tx.try_send(2), Ok(()));
    assert_eq!(rx.try_recv(), Ok(1));
    assert_eq!(rx.try_recv(), Ok(2));
    assert_eq!(rx.try_recv(), Err(TryRecvError::Empty));
    drop(tx);
    drop(tx2);
    assert_eq!(rx.try_recv(), Err(TryRecvError::Disconnected));
}
