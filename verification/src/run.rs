//! Whole runs of a pool: any sequence of decisions and task completions,
//! and what holds of every state that such a sequence can reach.
//!
//! A [`Pool`](crate::pool::Pool) starts in [`PoolState::init`], and its two
//! operations take its state to [`PoolState::advance`] and
//! [`PoolState::record`]. So what is proved here of all runs holds of every
//! sequence of calls on a pool.

use crate::pool::{PoolState, Step};
use vstd::prelude::*;

verus! {

/// One thing that happens to a pool.
pub enum Event {
    /// The scheduler is asked for its next action.
    Decide,
    /// A task in flight finishes after `nanos` nanoseconds.
    Complete { success: bool, nanos: nat },
}

impl PoolState {
    /// Whether `event` can happen in this state: a task can only finish
    /// while one is in flight.
    pub open spec fn accepts(self, event: Event) -> bool {
        event is Complete ==> self.running() > 0
    }

    /// The state after `event`.
    pub open spec fn after(self, event: Event) -> PoolState {
        match event {
            Event::Decide => self.advance(),
            Event::Complete { success, nanos } => self.record(success, nanos),
        }
    }
}

/// The state that `events`, in order, lead to from `start`.
pub open spec fn state_after(start: PoolState, events: Seq<Event>) -> PoolState
    decreases events.len(),
{
    if events.len() == 0 {
        start
    } else {
        state_after(start, events.drop_last()).after(events.last())
    }
}

/// Each of `events` can happen in the state that those before it lead to.
pub open spec fn admissible(start: PoolState, events: Seq<Event>) -> bool
    decreases events.len(),
{
    events.len() > 0 ==> {
        &&& admissible(start, events.drop_last())
        &&& state_after(start, events.drop_last()).accepts(events.last())
    }
}

/// The ids handed out by the launches that `events` bring about, in the
/// order of launching.
pub open spec fn ids_assigned(start: PoolState, events: Seq<Event>) -> Seq<nat>
    decreases events.len(),
{
    if events.len() == 0 {
        Seq::empty()
    } else {
        let earlier = ids_assigned(start, events.drop_last());
        match (events.last(), state_after(start, events.drop_last()).action()) {
            (Event::Decide, Step::Launch { id, .. }) => earlier.push(id),
            _ => earlier,
        }
    }
}

/// The ids `1, 2, ..., count`.
pub open spec fn first_ids(count: nat) -> Seq<nat> {
    Seq::new(count, |i: int| (i + 1) as nat)
}

/// Handing out an action keeps a state well-formed.
pub proof fn lemma_advance_keeps_wf(state: PoolState)
    requires
        state.wf(),
    ensures
        state.advance().wf(),
{
}

/// Recording a task that was in flight keeps a state well-formed.
pub proof fn lemma_record_keeps_wf(state: PoolState, success: bool, nanos: nat)
    requires
        state.wf(),
        state.running() > 0,
    ensures
        state.record(success, nanos).wf(),
        state.record(success, nanos).running() == state.running() - 1,
        state.record(success, nanos).completed() == state.completed() + 1,
{
}

/// Every state of a run is well-formed, and the configuration never changes.
pub proof fn lemma_run_keeps_wf(start: PoolState, events: Seq<Event>)
    requires
        start.wf(),
        admissible(start, events),
    ensures
        state_after(start, events).wf(),
        state_after(start, events).total_tasks == start.total_tasks,
        state_after(start, events).concurrency == start.concurrency,
        state_after(start, events).launch_delay_ms == start.launch_delay_ms,
    decreases events.len(),
{
    if events.len() > 0 {
        lemma_run_keeps_wf(start, events.drop_last());
        let before = state_after(start, events.drop_last());
        match events.last() {
            Event::Decide => lemma_advance_keeps_wf(before),
            Event::Complete { success, nanos } => lemma_record_keeps_wf(before, success, nanos),
        }
    }
}

/// At every moment of a run, the tasks in flight number at most the
/// concurrency ceiling and at most the tasks of the run.
pub proof fn running_never_exceeds_ceiling(
    total_tasks: nat,
    concurrency: nat,
    launch_delay_ms: nat,
    events: Seq<Event>,
)
    requires
        admissible(PoolState::init(total_tasks, concurrency, launch_delay_ms), events),
    ensures
        state_after(PoolState::init(total_tasks, concurrency, launch_delay_ms), events).running()
            <= concurrency,
        state_after(PoolState::init(total_tasks, concurrency, launch_delay_ms), events).running()
            <= total_tasks,
{
    lemma_run_keeps_wf(PoolState::init(total_tasks, concurrency, launch_delay_ms), events);
}

/// At every moment of a run, no more tasks have been launched than the run
/// consists of, no more have completed than were launched, and each
/// completed task counts as exactly one success or one failure.
pub proof fn counts_stay_consistent(
    total_tasks: nat,
    concurrency: nat,
    launch_delay_ms: nat,
    events: Seq<Event>,
)
    requires
        admissible(PoolState::init(total_tasks, concurrency, launch_delay_ms), events),
    ensures
        ({
            let state = state_after(
                PoolState::init(total_tasks, concurrency, launch_delay_ms),
                events,
            );
            &&& state.launched <= total_tasks
            &&& state.completed() <= state.launched
            &&& state.succeeded() + state.failed() == state.completed()
            &&& state.tally.successes.len() == state.succeeded()
            &&& state.tally.failures.len() == state.failed()
        }),
{
    lemma_run_keeps_wf(PoolState::init(total_tasks, concurrency, launch_delay_ms), events);
}

/// When a run with a concurrency of at least one is over, every task of it
/// was launched and has completed, as a success or as a failure.
pub proof fn finished_run_is_complete(
    total_tasks: nat,
    concurrency: nat,
    launch_delay_ms: nat,
    events: Seq<Event>,
)
    requires
        concurrency >= 1,
        admissible(PoolState::init(total_tasks, concurrency, launch_delay_ms), events),
        state_after(PoolState::init(total_tasks, concurrency, launch_delay_ms), events).action()
            is Finish,
    ensures
        ({
            let state = state_after(
                PoolState::init(total_tasks, concurrency, launch_delay_ms),
                events,
            );
            &&& state.launched == total_tasks
            &&& state.completed() == total_tasks
            &&& state.succeeded() + state.failed() == total_tasks
            &&& state.running() == 0
        }),
{
    lemma_run_keeps_wf(PoolState::init(total_tasks, concurrency, launch_delay_ms), events);
}

/// Every launch, every pause and every completion brings the end of the
/// run nearer; the scheduler waits only while a task is in flight, whose
/// completion it can then take in; and with a concurrency of at least one
/// the run is over exactly when nothing is left to do.
pub proof fn every_step_brings_the_end_nearer(state: PoolState, success: bool, nanos: nat)
    requires
        state.wf(),
    ensures
        state.action() is Launch || state.action() is Pause ==> state.advance().work_left()
            < state.work_left(),
        state.action() is Await ==> state.running() > 0 && state.advance() == state,
        state.running() > 0 ==> state.record(success, nanos).work_left() < state.work_left(),
        state.concurrency >= 1 ==> (state.action() is Finish <==> state.work_left() == 0),
{
}

/// A run that starts with `first` and goes on with `rest` is the run `rest`
/// from the state after `first`.
pub proof fn lemma_run_from_second_event(start: PoolState, first: Event, rest: Seq<Event>)
    ensures
        state_after(start, seq![first] + rest) == state_after(start.after(first), rest),
        admissible(start, seq![first] + rest) <==> start.accepts(first) && admissible(
            start.after(first),
            rest,
        ),
    decreases rest.len(),
{
    let whole = seq![first] + rest;
    if rest.len() == 0 {
        assert(whole.drop_last() =~= Seq::<Event>::empty());
        assert(whole.last() == first);
        assert(state_after(start, whole.drop_last()) == start);
        assert(admissible(start, whole.drop_last()));
    } else {
        lemma_run_from_second_event(start, first, rest.drop_last());
        assert(whole.drop_last() =~= seq![first] + rest.drop_last());
        assert(whole.last() == rest.last());
    }
}

/// No state of a run is a dead end: from each, some admissible course of
/// events brings the run to its finish. The scheduler never waits for a
/// completion that cannot come.
pub proof fn every_run_can_end(state: PoolState) -> (events: Seq<Event>)
    requires
        state.wf(),
    ensures
        admissible(state, events),
        state_after(state, events).action() is Finish,
    decreases state.work_left(),
{
    match state.action() {
        Step::Finish => Seq::empty(),
        Step::Await => {
            let first = Event::Complete { success: true, nanos: 0 };
            every_step_brings_the_end_nearer(state, true, 0);
            lemma_record_keeps_wf(state, true, 0);
            let rest = every_run_can_end(state.after(first));
            lemma_run_from_second_event(state, first, rest);
            seq![first] + rest
        },
        _ => {
            every_step_brings_the_end_nearer(state, true, 0);
            lemma_advance_keeps_wf(state);
            let rest = every_run_can_end(state.after(Event::Decide));
            lemma_run_from_second_event(state, Event::Decide, rest);
            seq![Event::Decide] + rest
        },
    }
}

/// Until the initial batch is launched, the scheduler launches or pauses and
/// never waits: the batch goes out whatever becomes of its first tasks.
pub proof fn initial_batch_goes_out_without_waiting(state: PoolState)
    requires
        state.wf(),
        state.launched < state.initial_batch(),
    ensures
        state.action() is Launch || state.action() is Pause,
{
}

/// Pauses fall between the launches of the initial batch and nowhere else.
/// A pause is only taken where a delay is configured, after a launch of the
/// initial batch that is not its last, and lasts as long as the delay. With
/// a delay configured, every such launch is followed by one pause, and the
/// pause by the next launch.
pub proof fn pauses_fall_between_initial_launches(state: PoolState)
    requires
        state.wf(),
    ensures
        state.action() matches Step::Pause { millis } ==> {
            &&& millis == state.launch_delay_ms
            &&& state.launch_delay_ms > 0
            &&& 0 < state.launched < state.initial_batch()
            &&& state.advance().action() is Launch
        },
        state.action() matches Step::Launch { id, .. } ==> (state.advance().action() is Pause <==> (
            state.launch_delay_ms > 0 && id < state.initial_batch())),
{
}

/// While the pool is full and tasks remain, each completion is answered by
/// the launch of exactly one task, under the next id and with no pause.
pub proof fn each_completion_is_replaced_once(state: PoolState, success: bool, nanos: nat)
    requires
        state.wf(),
        state.action() is Await,
        state.launched < state.total_tasks,
    ensures
        state.record(success, nanos).action() == (Step::Launch {
            id: state.launched + 1,
            running: state.running(),
        }),
        state.record(success, nanos).advance().action() is Await,
{
}

/// Once every task is launched, nothing more is: the scheduler waits for
/// the tasks in flight and finishes when the last has completed.
pub proof fn nothing_is_launched_beyond_the_run(state: PoolState)
    requires
        state.wf(),
        state.launched == state.total_tasks,
    ensures
        state.action() is Await || state.action() is Finish,
        state.action() is Finish <==> state.completed() == state.total_tasks,
        state.advance() == state,
{
}

/// Nothing that happens takes anything back: the number of launched tasks
/// never goes down, and the duration logs only grow at their ends.
pub proof fn history_only_grows(state: PoolState, event: Event)
    ensures
        state.launched <= state.after(event).launched,
        state.tally.successes.is_prefix_of(state.after(event).tally.successes),
        state.tally.failures.is_prefix_of(state.after(event).tally.failures),
{
}

/// The ids handed out in a run are `1, 2, ...` up to the number of tasks
/// launched, each once, in the order of launching.
pub proof fn ids_are_consecutive(
    total_tasks: nat,
    concurrency: nat,
    launch_delay_ms: nat,
    events: Seq<Event>,
)
    requires
        admissible(PoolState::init(total_tasks, concurrency, launch_delay_ms), events),
    ensures
        ids_assigned(PoolState::init(total_tasks, concurrency, launch_delay_ms), events)
            == first_ids(
            state_after(PoolState::init(total_tasks, concurrency, launch_delay_ms), events).launched,
        ),
    decreases events.len(),
{
    let start = PoolState::init(total_tasks, concurrency, launch_delay_ms);
    if events.len() == 0 {
        assert(ids_assigned(start, events) =~= first_ids(0));
    } else {
        let earlier = events.drop_last();
        ids_are_consecutive(total_tasks, concurrency, launch_delay_ms, earlier);
        let before = state_after(start, earlier);
        let ids = ids_assigned(start, earlier);
        match (events.last(), before.action()) {
            (Event::Decide, Step::Launch { id, .. }) => {
                assert(ids.push(id) =~= first_ids(before.launched + 1));
            },
            _ => {},
        }
    }
}

/// When a run with a concurrency of at least one is over, the ids handed
/// out are exactly `1, ..., total_tasks`, each once and in rising order.
pub proof fn finished_run_assigned_every_id(
    total_tasks: nat,
    concurrency: nat,
    launch_delay_ms: nat,
    events: Seq<Event>,
)
    requires
        concurrency >= 1,
        admissible(PoolState::init(total_tasks, concurrency, launch_delay_ms), events),
        state_after(PoolState::init(total_tasks, concurrency, launch_delay_ms), events).action()
            is Finish,
    ensures
        ids_assigned(PoolState::init(total_tasks, concurrency, launch_delay_ms), events)
            == first_ids(total_tasks),
        forall|i: int, j: int|
            0 <= i < j < total_tasks ==> first_ids(total_tasks)[i] < first_ids(total_tasks)[j],
        forall|id: nat|
            1 <= id <= total_tasks ==> first_ids(total_tasks).contains(id),
{
    finished_run_is_complete(total_tasks, concurrency, launch_delay_ms, events);
    ids_are_consecutive(total_tasks, concurrency, launch_delay_ms, events);
    assert forall|id: nat| 1 <= id <= total_tasks implies first_ids(total_tasks).contains(id) by {
        assert(first_ids(total_tasks)[id - 1] == id);
    }
}

} // verus!
