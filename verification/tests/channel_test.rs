use stage::channel::{RecvError, RecvTimeoutError, TryRecvError, TrySendError};

#[test]
fn recv_error_message() {
    assert_eq!(
        RecvError.to_string(),
        "receiving on an empty and disconnected channel"
    );
}

#[test]
fn recv_timeout_error_messages() {
    assert_eq!(
        RecvTimeoutError::Timeout.to_string(),
        "timed out waiting on receive operation"
    );
    assert_eq!(
        RecvTimeoutError::Disconnected.to_string(),
        "channel is empty and disconnected"
    );
}

#[test]
fn try_send_error_messages() {
    assert_eq!(TrySendError::Full(1u8).to_string(), "sending on a full channel");
    assert_eq!(
        TrySendError::Disconnected(1u8).to_string(),
        "sending on a disconnected channel"
    );
}

#[test]
fn try_recv_error_messages() {
    assert_eq!(TryRecvError::Empty.to_string(), "receiving on an empty channel");
    assert_eq!(
        TryRecvError::Disconnected.to_string(),
        "receiving on an empty and disconnected channel"
    );
}

#[test]
fn errors_compare_by_value() {
    assert_eq!(TrySendError::Full(3u32), TrySendError::Full(3u32));
    assert_ne!(TrySendError::Full(3u32), TrySendError::Disconnected(3u32));
    assert_ne!(TryRecvError::Empty, TryRecvError::Disconnected);
    assert_eq!(RecvError, RecvError);
}
