use stage::actor::{ask_outcome, Activity, Delivery};
use stage::channel::RecvTimeoutError;

#[test]
fn new_actor_is_active_and_receives_its_messages() {
    let activity = Activity::new();
    assert!(activity.is_active());
    assert_eq!(activity.deliver(true), Delivery::Receive);
    assert_eq!(activity.deliver(false), Delivery::Unexpected);
}

#[test]
fn stopped_actor_receives_nothing() {
    let mut activity = Activity::new();
    activity.stop();
    assert!(!activity.is_active());
    assert_eq!(activity.deliver(true), Delivery::Skip);
    assert_eq!(activity.deliver(false), Delivery::Skip);
    activity.stop();
    assert!(!activity.is_active());
}

#[test]
fn ask_outcomes() {
    assert_eq!(ask_outcome(Ok(Some(10u32))), Ok(10));
    assert_eq!(ask_outcome::<u32>(Ok(None)), Err(RecvTimeoutError::Timeout));
    assert_eq!(
        ask_outcome::<u32>(Err(RecvTimeoutError::Timeout)),
        Err(RecvTimeoutError::Timeout)
    );
    assert_eq!(
        ask_outcome::<u32>(Err(RecvTimeoutError::Disconnected)),
        Err(RecvTimeoutError::Disconnected)
    );
}
