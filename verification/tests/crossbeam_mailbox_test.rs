use std::time::Duration;

use stage::channel::{ReceiverFlavor, RecvTimeoutError, SenderFlavor, TryRecvError, TrySendError};
use stage::crossbeam_mailbox::{bounded_mailbox_fn, unbounded_mailbox_fn};

#[test]
fn bounded_mailbox_refuses_when_full() {
    let (tx, mut rx) = bounded_mailbox_fn(1).call::<u32>();
    assert!(matches!(tx.sender_impl, SenderFlavor::Crossbeam(_)));
    assert!(matches!(rx.receiver_impl, ReceiverFlavor::Crossbeam(_)));
    assert_eq!(tx.try_send(1), Ok(()));
    assert_eq!(tx.try_send(2), Err(TrySendError::Full(2)));
    assert_eq!(rx.try_recv(), Ok(1));
    assert_eq!(rx.try_recv(), Err(TryRecvError::Empty));
}

#[test]
fn bounded_mailbox_reports_disconnection() {
    let (tx, rx) = bounded_mailbox_fn(1).call::<u32>();
    drop(rx);
    assert_eq!(tx.try_send(3), Err(TrySendError::Disconnected(3)));
}

#[test]
fn zero_capacity_mailbox_needs_a_waiting_receiver() {
    let (tx, _rx) = bounded_mailbox_fn(0).call::<u32>();
    assert_eq!(tx.try_send(7), Err(TrySendError::Full(7)));
}

#[test]
fn unbounded_crossbeam_mailbox_takes_many() {
    let (tx, mut rx) = unbounded_mailbox_fn().call::<u32>();
    for i in 0..1000 {
        assert_eq!(tx.try_send(i), Ok(()));
    }
    for i in 0..1000 {
        assert_eq!(rx.try_recv(), Ok(i));
    }
    drop(tx);
    assert_eq!(rx.try_recv(), Err(TryRecvError::Disconnected));
}

#[test]
fn cloned_crossbeam_sender_shares_the_channel() {
    let (tx, mut rx) = unbounded_mailbox_fn().call::<&str>();
    let tx2 = tx.clone();
    assert_eq!(tx2.try_send("a"), Ok(()));
    assert_eq!(tx.try_send("b"), Ok(()));
    drop(tx);
    assert_eq!(rx.try_recv(), Ok("a"));
    assert_eq!(rx.try_recv(), Ok("b"));
    assert_eq!(rx.try_recv(), Err(TryRecvError::Empty));
    drop(tx2);
    assert_eq!(rx.try_recv(), Err(TryRecvError::Disconnected));
}

#[test]
fn crossbeam_recv_timeout_outcomes() {
    let (tx, rx) = bounded_mailbox_fn(2).call::<u32>();
    let receiver = match rx.receiver_impl {
        ReceiverFlavor::Crossbeam(r) => r,
        _ => panic!("a crossbeam mailbox has a crossbeam receiver"),
    };
    assert_eq!(
        receiver.recv_timeout(Duration::from_millis(10)),
        Err(RecvTimeoutError::Timeout)
    );
    assert_eq!(tx.try_send(5), Ok(()));
    assert_eq!(receiver.recv_timeout(Duration::from_millis(10)), Ok(5));
    drop(tx);
    assert_eq!(
        receiver.recv_timeout(Duration::from_millis(10)),
        Err(RecvTimeoutError::Disconnected)
    );
}
