//! The decisions that dispatchers make while they run actors.
//!
//! A dispatcher receives commands on a control channel and selects on the
//! mailboxes of the actors it runs. Waiting, selecting and running the actors
//! is the executor's work; what to do with each thing that arrives is decided
//! here, over the dispatcher's state.
use vstd::prelude::*;

use crate::actor::Activity;
use crate::channel::TryRecvError;

verus! {

broadcast use {vstd::seq_lib::group_to_multiset_ensures, vstd::multiset::group_multiset_properties};

/// Dispatchers can be sent commands on a control channel as well as being able to
/// dispatch messages to the actors they are responsible to execute.
pub enum DispatcherCommand<S> {
    /// Tells the dispatcher to select on a receiver of messages by providing
    /// the receiver. If selection signals activity on the receiver then
    /// a function should be performed to process it.
    SelectWithAction { underlying: S },
    /// Tells the dispatcher to finish up. The thread on which the dispatcher run
    /// function is running can then be joined.
    Stop,
}

/// The sequence left by `Vec::swap_remove` at `i`: the last element takes the
/// place of the removed one.
pub open spec fn swap_removed<A>(s: Seq<A>, i: int) -> Seq<A> {
    s.update(i, s.last()).drop_last()
}

/// Removing at `i` by swapping takes exactly one occurrence of `s[i]` out, and
/// keeps every other element.
pub proof fn lemma_swap_removed_to_multiset<A>(s: Seq<A>, i: int)
    requires
        0 <= i < s.len(),
    ensures
        swap_removed(s, i).to_multiset() == s.to_multiset().remove(s[i]),
        swap_removed(s, i).len() == s.len() - 1,
{
    let u = s.update(i, s.last());
    let n = swap_removed(s, i);
    assert(u.last() == s.last());
    assert(u =~= n.push(u.last()));
    assert(u.to_multiset() == s.to_multiset().insert(s.last()).remove(s[i]));
    assert(n.push(s.last()).to_multiset() == n.to_multiset().insert(s.last()));
    assert(s.contains(s[i]));
    assert(s.to_multiset().count(s[i]) > 0);
    assert forall|v: A| #[trigger] n.to_multiset().count(v) == s.to_multiset().remove(s[i]).count(v) by {
        assert(n.to_multiset().insert(s.last()).count(v) == s.to_multiset().insert(s.last()).remove(s[i]).count(v));
    }
    assert(n.to_multiset() =~= s.to_multiset().remove(s[i]));
}

/// What the work-stealing dispatcher's select brought.
pub enum DispatchEvent<S> {
    /// A command arrived on the control channel, which is always the first one selected on.
    Command(DispatcherCommand<S>),
    /// A message that is no dispatcher command arrived on the control channel.
    Unrecognised,
    /// Receiving on the control channel failed: it is empty and disconnected.
    ControlFailed,
    /// The selection at position `index` of the select (counting the control channel
    /// as 0) was ready; `received` tells whether a message could be taken from it.
    Actor { index: usize, received: bool },
}

/// What the work-stealing dispatcher does about an event.
pub enum DispatchAction<S> {
    /// The selection has been added to those selected on.
    Registered,
    /// Shut the executor down and return the stop command.
    Shutdown,
    /// Return the control channel's error.
    Fail,
    /// Log the unexpected message and carry on.
    Ignore,
    /// Have the executor run the selection's action on the message received, then on
    /// what else its mailbox holds while the actor stays active. The selection is not
    /// selected on until it is sent back as a command.
    Execute(S),
    /// The actor's channel could not be received on: its selection is dropped as a
    /// dead letter.
    DeadLetter(S),
}

/// The work-stealing dispatcher's response to an event, over the selections it selects on.
pub open spec fn dispatch_spec<S>(selections: Seq<S>, event: DispatchEvent<S>) -> (Seq<S>, DispatchAction<S>) {
    match event {
        DispatchEvent::Command(DispatcherCommand::SelectWithAction { underlying }) =>
            (selections.push(underlying), DispatchAction::Registered),
        DispatchEvent::Command(DispatcherCommand::Stop) => (selections, DispatchAction::Shutdown),
        DispatchEvent::Unrecognised => (selections, DispatchAction::Ignore),
        DispatchEvent::ControlFailed => (selections, DispatchAction::Fail),
        DispatchEvent::Actor { index, received } => {
            let selection = selections[index - 1];
            (
                swap_removed(selections, index - 1),
                if received {
                    DispatchAction::Execute(selection)
                } else {
                    DispatchAction::DeadLetter(selection)
                },
            )
        },
    }
}

/// Whether an event can come out of a select over the control channel and `selections`.
pub open spec fn selectable<S>(selections: Seq<S>, event: DispatchEvent<S>) -> bool {
    event matches DispatchEvent::Actor { index, .. } ==> 1 <= index <= selections.len()
}

/// The selections that the work-stealing dispatcher selects on, after its control channel.
pub struct Selections<S> {
    selections: Vec<S>,
}

impl<S> View for Selections<S> {
    type V = Seq<S>;

    closed spec fn view(&self) -> Seq<S> {
        self.selections@
    }
}

impl<S> Selections<S> {
    /// No selections: only the control channel is selected on.
    pub fn new() -> (r: Self)
        ensures
            r@ == Seq::<S>::empty(),
    {
        Selections { selections: Vec::new() }
    }

    /// The selections, in the order in which they follow the control channel in a select.
    pub fn selections(&self) -> (r: &Vec<S>)
        ensures
            r@ == self@,
    {
        &self.selections
    }

    /// How many selections there are.
    pub fn len(&self) -> (n: usize)
        ensures
            n == self@.len(),
    {
        self.selections.len()
    }

    /// Decides what to do about what the select brought: registers a selection, hands
    /// a ready selection out to be run (or dropped) and stops selecting on it, or tells
    /// the dispatcher to stop, fail or carry on.
    pub fn dispatch(&mut self, event: DispatchEvent<S>) -> (action: DispatchAction<S>)
        requires
            selectable(old(self)@, event),
        ensures
            (final(self)@, action) == dispatch_spec(old(self)@, event),
    {
        match event {
            DispatchEvent::Command(DispatcherCommand::SelectWithAction { underlying }) => {
                self.selections.push(underlying);
                DispatchAction::Registered
            },
            DispatchEvent::Command(DispatcherCommand::Stop) => DispatchAction::Shutdown,
            DispatchEvent::Unrecognised => DispatchAction::Ignore,
            DispatchEvent::ControlFailed => DispatchAction::Fail,
            DispatchEvent::Actor { index, received } => {
                let selection = self.selections.swap_remove(index - 1);
                if received {
                    DispatchAction::Execute(selection)
                } else {
                    DispatchAction::DeadLetter(selection)
                }
            },
        }
    }
}

/// An actor runs one message at a time: once its selection is handed out to be run,
/// it is selected on once less, every other selection stays, and there is one
/// selection fewer.
pub proof fn lemma_dispatch_takes_selection_out<S>(selections: Seq<S>, index: usize, received: bool)
    requires
        1 <= index <= selections.len(),
    ensures
        ({
            let (after, action) = dispatch_spec(selections, DispatchEvent::Actor { index, received });
            &&& after.to_multiset() == selections.to_multiset().remove(selections[index - 1])
            &&& after.len() == selections.len() - 1
            &&& action == (if received {
                DispatchAction::Execute(selections[index - 1])
            } else {
                DispatchAction::DeadLetter(selections[index - 1])
            })
        }),
{
    lemma_swap_removed_to_multiset(selections, index - 1);
}

/// A selection that was run and is sent back to the dispatcher is selected on again:
/// the dispatcher then selects on just what it selected on before.
pub proof fn lemma_requeue_restores_selections<S>(selections: Seq<S>, index: usize)
    requires
        1 <= index <= selections.len(),
    ensures
        ({
            let (running, action) = dispatch_spec(selections, DispatchEvent::Actor { index, received: true });
            let selection = action->Execute_0;
            let (back, again) = dispatch_spec(
                running,
                DispatchEvent::Command(DispatcherCommand::SelectWithAction { underlying: selection }),
            );
            &&& action is Execute
            &&& again is Registered
            &&& back.to_multiset() == selections.to_multiset()
        }),
{
    let s = selections[index - 1];
    lemma_swap_removed_to_multiset(selections, index - 1);
    let running = swap_removed(selections, index - 1);
    assert(running.push(s).to_multiset() == running.to_multiset().insert(s));
    assert(selections.to_multiset().count(s) > 0) by {
        assert(selections.contains(s));
    }
    assert(running.push(s).to_multiset() =~= selections.to_multiset());
}

/// Whether an event registers a selection that is not selected on already.
pub open spec fn registers_fresh<S>(selections: Seq<S>, event: DispatchEvent<S>) -> bool {
    event matches DispatchEvent::Command(DispatcherCommand::SelectWithAction { underlying })
        ==> !selections.contains(underlying)
}

/// No actor is selected on twice: where every selection is distinct, it stays so
/// whatever the dispatcher does, as long as what is registered is not selected on
/// already; and a selection handed out to run is no longer selected on at all.
pub proof fn lemma_selections_stay_distinct<S>(selections: Seq<S>, event: DispatchEvent<S>)
    requires
        selections.no_duplicates(),
        selectable(selections, event),
        registers_fresh(selections, event),
    ensures
        dispatch_spec(selections, event).0.no_duplicates(),
        event matches DispatchEvent::Actor { index, .. } ==> !dispatch_spec(selections, event).0.contains(
            selections[index - 1],
        ),
{
    match event {
        DispatchEvent::Actor { index, received } => {
            let i = index - 1;
            let after = swap_removed(selections, i);
            lemma_swap_removed_to_multiset(selections, i);
            selections.lemma_multiset_has_no_duplicates();
            assert(selections.contains(selections[i]));
            assert forall|x: S| after.to_multiset().contains(x) implies after.to_multiset().count(x) == 1 by {
                assert(selections.to_multiset().contains(x));
                if x == selections[i] {
                    assert(after.to_multiset().count(x) == 0);
                }
            }
            after.lemma_multiset_has_no_duplicates_conv();
            assert(after.to_multiset().count(selections[i]) == 0);
        },
        DispatchEvent::Command(DispatcherCommand::SelectWithAction { underlying }) => {
            let after = selections.push(underlying);
            assert forall|a: int, b: int| 0 <= a < after.len() && 0 <= b < after.len() && a != b
                implies after[a] != after[b] by {
                if a < selections.len() && b < selections.len() {
                } else if a == selections.len() {
                    assert(selections.contains(after[b]) || b == a);
                } else {
                    assert(selections.contains(after[a]));
                }
            }
        },
        _ => {},
    }
}

/// A control message never changes what is selected on unless it registers a selection.
pub proof fn lemma_control_keeps_selections<S>(selections: Seq<S>, event: DispatchEvent<S>)
    requires
        !(event is Actor),
        !(event matches DispatchEvent::Command(DispatcherCommand::SelectWithAction { .. })),
    ensures
        dispatch_spec(selections, event).0 == selections,
{
}

/// Stopping the work-stealing dispatcher: whatever it selects on, a stop command
/// makes it shut its executor down and return (so that its thread can be joined),
/// and leaves what it selects on untouched.
pub proof fn lemma_stop_shuts_down<S>(selections: Seq<S>)
    ensures
        dispatch_spec(selections, DispatchEvent::Command(DispatcherCommand::Stop)) == (
            selections,
            DispatchAction::<S>::Shutdown,
        ),
{
}

/// Each kind of event has its own action: the dispatcher shuts down on a stop command
/// and on nothing else, fails exactly when its control channel fails, only logs
/// exactly the unrecognised messages, registers exactly the selections it is sent,
/// and runs a selection exactly when a message could be taken from it (dropping it
/// otherwise).
pub proof fn lemma_dispatch_action_follows_event<S>(selections: Seq<S>, event: DispatchEvent<S>)
    requires
        selectable(selections, event),
    ensures
        ({
            let action = dispatch_spec(selections, event).1;
            &&& (action is Shutdown <==> event == DispatchEvent::<S>::Command(DispatcherCommand::Stop))
            &&& (action is Fail <==> event is ControlFailed)
            &&& (action is Ignore <==> event is Unrecognised)
            &&& (action is Registered <==> event matches DispatchEvent::Command(
                DispatcherCommand::SelectWithAction { .. },
            ))
            &&& (action is Execute <==> event matches DispatchEvent::Actor { received: true, .. })
            &&& (action is DeadLetter <==> event matches DispatchEvent::Actor { received: false, .. })
        }),
{
}

/// What a worker does next once the actor has handled a message and said whether it
/// is still active.
pub enum BatchTurn<T> {
    /// Hand the actor the next message of its mailbox.
    Deliver(T),
    /// The mailbox has nothing more for now: send the selection back to the dispatcher.
    Requeue,
    /// The actor has stopped: drop its selection as a dead letter.
    Retire,
}

/// One turn of a worker's batch: a stopped actor is retired; for an active one, what
/// polling its mailbox gave decides between the next message and the end of the batch.
pub open spec fn batch_turn_spec<T>(active: bool, polled: Option<Result<T, TryRecvError>>) -> BatchTurn<T> {
    match polled {
        Some(Ok(m)) if active => BatchTurn::Deliver(m),
        Some(Err(_)) if active => BatchTurn::Requeue,
        _ => BatchTurn::Retire,
    }
}

/// One turn of a worker's batch. Only an active actor's mailbox is polled, and
/// `polled` is what that gave: another message goes on to the actor; an empty or
/// disconnected mailbox ends the batch with the selection sent back.
pub fn batch_turn<T>(active: bool, polled: Option<Result<T, TryRecvError>>) -> (turn: BatchTurn<T>)
    requires
        active <==> polled is Some,
    ensures
        turn == batch_turn_spec(active, polled),
{
    match polled {
        None => BatchTurn::Retire,
        Some(Ok(m)) => BatchTurn::Deliver(m),
        Some(Err(_)) => BatchTurn::Requeue,
    }
}

/// An actor that has stopped is retired at once: the worker hands it no further
/// message and drops its selection rather than sending it back to the dispatcher;
/// an active actor is never retired.
pub proof fn lemma_stopped_actor_is_retired<T>(actor: Activity, polled: Option<Result<T, TryRecvError>>)
    requires
        actor.active() <==> polled is Some,
    ensures
        (batch_turn_spec(actor.active(), polled) is Retire) <==> !actor.active(),
{
}

/// What the Tokio dispatcher's control channel brought.
pub enum TaskEvent<S> {
    /// A dispatcher command.
    Command(DispatcherCommand<S>),
    /// The task with this id has finished running its actor.
    TaskStopped { id: usize },
    /// A message of another kind.
    Unrecognised,
}

/// What the Tokio dispatcher does about a message of its control channel.
pub enum TaskAction<S, H> {
    /// Spawn a task, known by `id`, that runs the selection's action on each message of
    /// its mailbox while the actor stays active; then register its handle.
    Spawn { id: usize, selection: S },
    /// Stop receiving commands.
    Finish,
    /// The task entry that was taken out of the registry.
    Released { entry: (usize, H) },
    /// Log the unexpected message and carry on.
    Warn,
}

/// The Tokio dispatcher's response to a control message, over its spawned tasks.
pub open spec fn task_spec<S, H>(tasks: Seq<(usize, H)>, event: TaskEvent<S>) -> (Seq<(usize, H)>, TaskAction<S, H>) {
    match event {
        TaskEvent::Command(DispatcherCommand::SelectWithAction { underlying }) =>
            (tasks, TaskAction::Spawn { id: tasks.len() as usize, selection: underlying }),
        TaskEvent::Command(DispatcherCommand::Stop) => (tasks, TaskAction::Finish),
        TaskEvent::TaskStopped { id } =>
            (swap_removed(tasks, id as int), TaskAction::Released { entry: tasks[id as int] }),
        TaskEvent::Unrecognised => (tasks, TaskAction::Warn),
    }
}

/// Whether the Tokio dispatcher can take a control message: a stopped task is looked
/// up by position, and one past the end makes it panic.
pub open spec fn task_event_ok<S, H>(tasks: Seq<(usize, H)>, event: TaskEvent<S>) -> bool {
    event matches TaskEvent::TaskStopped { id } ==> id < tasks.len()
}

/// The tasks that the Tokio dispatcher has spawned, each with the id it was given.
pub struct SpawnedTasks<H> {
    tasks: Vec<(usize, H)>,
}

impl<H> View for SpawnedTasks<H> {
    type V = Seq<(usize, H)>;

    closed spec fn view(&self) -> Seq<(usize, H)> {
        self.tasks@
    }
}

impl<H> SpawnedTasks<H> {
    /// No task spawned yet.
    pub fn new() -> (r: Self)
        ensures
            r@ == Seq::<(usize, H)>::empty(),
    {
        SpawnedTasks { tasks: Vec::new() }
    }

    /// How many task entries there are.
    pub fn len(&self) -> (n: usize)
        ensures
            n == self@.len(),
    {
        self.tasks.len()
    }

    /// Decides what to do about a control message: spawn a task for a selection (with
    /// the next id), finish on a stop, take out the entry at the position a stopped
    /// task's id names, or carry on.
    pub fn on_control<S>(&mut self, event: TaskEvent<S>) -> (action: TaskAction<S, H>)
        requires
            task_event_ok(old(self)@, event),
        ensures
            (final(self)@, action) == task_spec(old(self)@, event),
    {
        match event {
            TaskEvent::Command(DispatcherCommand::SelectWithAction { underlying }) => {
                TaskAction::Spawn { id: self.tasks.len(), selection: underlying }
            },
            TaskEvent::Command(DispatcherCommand::Stop) => TaskAction::Finish,
            TaskEvent::TaskStopped { id } => {
                let entry = self.tasks.swap_remove(id);
                TaskAction::Released { entry }
            },
            TaskEvent::Unrecognised => TaskAction::Warn,
        }
    }

    /// Registers the handle of a task just spawned; it is known by the id it returns,
    /// the number of entries before it.
    pub fn register(&mut self, handle: H) -> (id: usize)
        requires
            old(self)@.len() < usize::MAX,
        ensures
            (final(self)@, id) == registered(old(self)@, handle),
    {
        let id = self.tasks.len();
        self.tasks.push((id, handle));
        id
    }
}

/// The registry after a task's handle is registered, and the id it is registered under.
pub open spec fn registered<H>(tasks: Seq<(usize, H)>, handle: H) -> (Seq<(usize, H)>, usize) {
    (tasks.push((tasks.len() as usize, handle)), tasks.len() as usize)
}

/// A task spawned for a selection is registered under the id it was spawned with,
/// and the registry holds it as its last entry.
pub proof fn lemma_spawn_then_register<S, H>(tasks: Seq<(usize, H)>, selection: S, handle: H)
    requires
        tasks.len() < usize::MAX,
    ensures
        ({
            let (after, action) = task_spec(
                tasks,
                TaskEvent::Command(DispatcherCommand::SelectWithAction { underlying: selection }),
            );
            let (registry, id) = registered(after, handle);
            &&& action == TaskAction::<S, H>::Spawn { id, selection }
            &&& registry.len() == tasks.len() + 1
            &&& registry.last() == (id, handle)
            &&& registry.drop_last() == tasks
        }),
{
    let (after, action) = task_spec::<S, H>(
        tasks,
        TaskEvent::Command(DispatcherCommand::SelectWithAction { underlying: selection }),
    );
    assert(registered(after, handle).0.drop_last() =~= tasks);
}

/// Stopping the Tokio dispatcher: whatever tasks it has spawned, a stop command makes
/// it finish receiving commands (so that its run completes), and leaves its task
/// entries untouched.
pub proof fn lemma_stop_finishes<S, H>(tasks: Seq<(usize, H)>)
    ensures
        task_spec(tasks, TaskEvent::<S>::Command(DispatcherCommand::Stop)) == (
            tasks,
            TaskAction::<S, H>::Finish,
        ),
{
}

/// Each kind of control message has its own action: the Tokio dispatcher finishes on a
/// stop command and on nothing else, only logs exactly the unrecognised messages,
/// spawns a task exactly for each selection it is sent, and releases an entry exactly
/// when a task reports that it stopped; only that last one changes its task entries.
pub proof fn lemma_task_action_follows_event<S, H>(tasks: Seq<(usize, H)>, event: TaskEvent<S>)
    requires
        task_event_ok(tasks, event),
    ensures
        ({
            let (after, action) = task_spec(tasks, event);
            &&& (action is Finish <==> event == TaskEvent::<S>::Command(DispatcherCommand::Stop))
            &&& (action is Warn <==> event is Unrecognised)
            &&& (action is Spawn <==> event matches TaskEvent::Command(
                DispatcherCommand::SelectWithAction { .. },
            ))
            &&& (action is Released <==> event is TaskStopped)
            &&& (!(event is TaskStopped) ==> after == tasks)
        }),
{
}

/// A stopped task's entry leaves the registry and every other entry stays.
pub proof fn lemma_stopped_task_leaves<S, H>(tasks: Seq<(usize, H)>, id: usize)
    requires
        id < tasks.len(),
    ensures
        ({
            let (after, action) = task_spec(tasks, TaskEvent::<S>::TaskStopped { id });
            &&& action == TaskAction::<S, H>::Released { entry: tasks[id as int] }
            &&& after.to_multiset() == tasks.to_multiset().remove(tasks[id as int])
            &&& after.len() == tasks.len() - 1
        }),
{
    lemma_swap_removed_to_multiset(tasks, id as int);
}

} // verus!
