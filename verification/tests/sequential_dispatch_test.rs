use stage::actor::{Activity, Delivery};
use stage::channel::{Receiver, ReceiverFlavor, Sender};
use stage::crossbeam_mailbox::unbounded_mailbox_fn;
use stage::dispatch::{
    batch_turn, BatchTurn, DispatchAction, DispatchEvent, DispatcherCommand, Selections,
};

/// A counting actor that stops itself once it has received `max` messages.
struct Counter {
    activity: Activity,
    received: Vec<u32>,
    max: usize,
}

impl Counter {
    fn act(&mut self, message: u32) -> bool {
        if self.activity.deliver(true) == Delivery::Receive {
            self.received.push(message);
            if self.received.len() == self.max {
                self.activity.stop();
            }
        }
        self.activity.is_active()
    }
}

fn has_message(receiver: &Receiver<u32>) -> bool {
    match &receiver.receiver_impl {
        ReceiverFlavor::Crossbeam(r) => !r.receiver().is_empty(),
        _ => false,
    }
}

/// Runs the dispatcher one select at a time until no mailbox holds a message.
fn run(selections: &mut Selections<(usize, Receiver<u32>)>, actors: &mut [Counter]) -> Vec<usize> {
    let mut retired = vec![];
    loop {
        let ready = selections
            .selections()
            .iter()
            .position(|(_, receiver)| has_message(receiver));
        let index = match ready {
            Some(i) => i + 1,
            None => return retired,
        };
        let (id, mut receiver) = match selections.dispatch(DispatchEvent::Actor { index, received: true }) {
            DispatchAction::Execute(selection) => selection,
            _ => panic!("a ready mailbox is executed"),
        };
        let first = receiver.try_recv().unwrap();
        let mut active = actors[id].act(first);
        loop {
            let polled = if active { Some(receiver.try_recv()) } else { None };
            match batch_turn(active, polled) {
                BatchTurn::Deliver(m) => active = actors[id].act(m),
                BatchTurn::Requeue => {
                    let again = selections.dispatch(DispatchEvent::Command(
                        DispatcherCommand::SelectWithAction { underlying: (id, receiver) },
                    ));
                    assert!(matches!(again, DispatchAction::Registered));
                    break;
                }
                BatchTurn::Retire => {
                    retired.push(id);
                    break;
                }
            }
        }
    }
}

#[test]
fn stopped_actor_receives_no_more_and_is_retired() {
    let mut actors = vec![
        Counter { activity: Activity::new(), received: vec![], max: 3 },
        Counter { activity: Activity::new(), received: vec![], max: 100 },
    ];
    let mut selections = Selections::new();
    let mut senders: Vec<Sender<u32>> = vec![];
    for id in 0..2 {
        let (tx, rx) = unbounded_mailbox_fn().call::<u32>();
        senders.push(tx);
        selections.dispatch(DispatchEvent::Command(DispatcherCommand::SelectWithAction {
            underlying: (id, rx),
        }));
    }
    for m in 1..=5 {
        senders[0].try_send(m).unwrap();
        senders[1].try_send(10 * m).unwrap();
    }
    let retired = run(&mut selections, &mut actors);
    assert_eq!(actors[0].received, vec![1, 2, 3]);
    assert_eq!(actors[1].received, vec![10, 20, 30, 40, 50]);
    assert_eq!(retired, vec![0]);
    // Only the active actor is still selected on.
    assert_eq!(selections.len(), 1);
    assert_eq!(selections.selections()[0].0, 1);
    // Messages to the stopped actor are no longer taken from its mailbox.
    senders[1].try_send(60).unwrap();
    let retired = run(&mut selections, &mut actors);
    assert!(retired.is_empty());
    assert_eq!(actors[1].received, vec![10, 20, 30, 40, 50, 60]);
}
