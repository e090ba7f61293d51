//! The scheduler of the pool: which task to launch next, when to pause,
//! when to wait for a running task, and when the run is over.
//!
//! The scheduler performs nothing itself. It is asked for the next action
//! with [`Pool::next_action`], the caller carries the action out, and each
//! task that finishes is handed in with [`Pool::record`].

use crate::elapsed::Elapsed;
use crate::outcome::Outcome;
use crate::stats::{FinalReport, StatsAggregator, Tally};
use vstd::prelude::*;

verus! {

/// What the caller is to do next.
#[derive(Clone, Copy, Debug, PartialEq, Eq, Structural)]
pub enum Action {
    /// Start the task with this id. `running` counts the tasks in flight,
    /// this one included.
    Launch { id: usize, running: usize },
    /// Let this many milliseconds pass before asking again.
    Pause { millis: u64 },
    /// Wait until a task in flight has finished and has been recorded.
    Await,
    /// The run is over.
    Finish,
}

/// An [`Action`] over unbounded numbers.
pub enum Step {
    Launch { id: nat, running: nat },
    Pause { millis: nat },
    Await,
    Finish,
}

impl View for Action {
    type V = Step;

    open spec fn view(&self) -> Step {
        match *self {
            Action::Launch { id, running } => Step::Launch { id: id as nat, running: running as nat },
            Action::Pause { millis } => Step::Pause { millis: millis as nat },
            Action::Await => Step::Await,
            Action::Finish => Step::Finish,
        }
    }
}

/// The state of a run: its configuration, how many tasks were launched, and
/// what was recorded of those that finished.
pub struct PoolState {
    /// How many tasks the run consists of.
    pub total_tasks: nat,
    /// How many tasks may be in flight at once.
    pub concurrency: nat,
    /// The pause between two launches of the initial batch, in milliseconds.
    pub launch_delay_ms: nat,
    /// How many tasks were launched; also the highest id handed out.
    pub launched: nat,
    /// A launch of the initial batch was made and its pause not yet taken.
    pub stagger_due: bool,
    /// The finished tasks.
    pub tally: Tally,
}

impl PoolState {
    /// The state before anything was launched.
    pub open spec fn init(total_tasks: nat, concurrency: nat, launch_delay_ms: nat) -> PoolState {
        PoolState {
            total_tasks,
            concurrency,
            launch_delay_ms,
            launched: 0,
            stagger_due: false,
            tally: Tally::empty(),
        }
    }

    pub open spec fn completed(self) -> nat {
        self.tally.completed()
    }

    pub open spec fn succeeded(self) -> nat {
        self.tally.succeeded()
    }

    pub open spec fn failed(self) -> nat {
        self.tally.failed()
    }

    /// The number of tasks in flight: launched and not yet recorded.
    pub open spec fn running(self) -> nat {
        (self.launched - self.completed()) as nat
    }

    /// The size of the initial batch: the concurrency ceiling, or the whole
    /// run where that is smaller.
    pub open spec fn initial_batch(self) -> nat {
        if self.concurrency <= self.total_tasks {
            self.concurrency
        } else {
            self.total_tasks
        }
    }

    /// What holds of every state of a run.
    pub open spec fn wf(self) -> bool {
        &&& self.launched <= self.total_tasks
        &&& self.completed() <= self.launched
        &&& self.running() <= self.concurrency
        &&& self.stagger_due ==> self.launch_delay_ms > 0 && 0 < self.launched
            < self.initial_batch()
    }

    /// A task remains to be launched and a slot is free for it.
    pub open spec fn can_launch(self) -> bool {
        self.launched < self.total_tasks && self.running() < self.concurrency
    }

    /// The action that is due in this state.
    ///
    /// While a task remains and a slot is free, the next task is launched
    /// under the next id, after the pause that a launch of the initial batch
    /// left due. Otherwise the run waits for a task in flight, and is over
    /// when none is.
    pub open spec fn action(self) -> Step {
        if self.can_launch() {
            if self.stagger_due {
                Step::Pause { millis: self.launch_delay_ms }
            } else {
                Step::Launch { id: self.launched + 1, running: self.running() + 1 }
            }
        } else if self.running() == 0 {
            Step::Finish
        } else {
            Step::Await
        }
    }

    /// The state once the action of this state was handed out.
    ///
    /// A launch counts the task as launched, and leaves a pause due if a
    /// delay is configured and the initial batch is not yet complete. A
    /// pause clears what was due. Waiting and finishing change nothing.
    pub open spec fn advance(self) -> PoolState {
        match self.action() {
            Step::Launch { id, .. } => PoolState {
                launched: id,
                stagger_due: self.launch_delay_ms > 0 && id < self.initial_batch(),
                ..self
            },
            Step::Pause { .. } => PoolState { stagger_due: false, ..self },
            _ => self,
        }
    }

    /// A measure of what is left of the run: launches still to make count
    /// three each, tasks in flight and a pause that is due one each.
    pub open spec fn work_left(self) -> nat {
        3 * (self.total_tasks - self.launched) as nat + self.running() + if self.stagger_due {
            1nat
        } else {
            0nat
        }
    }

    /// The state once a task of `nanos` nanoseconds was recorded.
    pub open spec fn record(self, success: bool, nanos: nat) -> PoolState {
        PoolState { tally: self.tally.record(success, nanos), ..self }
    }
}

/// A pool of at most `concurrency` tasks in flight, out of `total_tasks`.
///
/// The pool is plain data. Where tasks report from several threads, it is
/// kept behind one lock: each call is then one indivisible step, and no
/// reader sees counts that disagree with each other or with the logs.
pub struct Pool {
    total_tasks: usize,
    concurrency: usize,
    launch_delay_ms: u64,
    launched: usize,
    stagger_due: bool,
    stats: StatsAggregator,
}

impl View for Pool {
    type V = PoolState;

    closed spec fn view(&self) -> PoolState {
        PoolState {
            total_tasks: self.total_tasks as nat,
            concurrency: self.concurrency as nat,
            launch_delay_ms: self.launch_delay_ms as nat,
            launched: self.launched as nat,
            stagger_due: self.stagger_due,
            tally: self.stats@,
        }
    }
}

impl Pool {
    /// The state is one of a run, and its configuration fits the machine.
    /// [`Pool::new`] makes such a pool and every operation keeps it so.
    pub open spec fn wf(&self) -> bool {
        &&& self@.wf()
        &&& self@.total_tasks <= usize::MAX
        &&& self@.concurrency <= usize::MAX
        &&& self@.launch_delay_ms <= u64::MAX
    }

    /// A pool for a run of `total_tasks` tasks, at most `concurrency` of
    /// them in flight, with `launch_delay_ms` milliseconds between the
    /// launches of the initial batch. With a concurrency of zero nothing is
    /// ever launched, and the run is over at once.
    pub fn new(total_tasks: usize, concurrency: usize, launch_delay_ms: u64) -> (pool: Pool)
        ensures
            pool.wf(),
            pool@ == PoolState::init(total_tasks as nat, concurrency as nat, launch_delay_ms as nat),
    {
        Pool {
            total_tasks,
            concurrency,
            launch_delay_ms,
            launched: 0,
            stagger_due: false,
            stats: StatsAggregator::new(),
        }
    }

    /// Decides what is to be done next, and counts a launch as made.
    ///
    /// A launch hands out the next id and never lifts the tasks in flight
    /// above the ceiling. With a concurrency of at least one, the run is
    /// only over when every task was launched and has completed.
    pub fn next_action(&mut self) -> (action: Action)
        requires
            old(self).wf(),
        ensures
            final(self).wf(),
            action@ == old(self)@.action(),
            final(self)@ == old(self)@.advance(),
            action matches Action::Launch { id, running } ==> {
                &&& id == old(self)@.launched + 1
                &&& id == final(self)@.launched
                &&& id <= final(self)@.total_tasks
                &&& running == final(self)@.running()
                &&& 1 <= running <= final(self)@.concurrency
            },
            !(action is Launch) ==> final(self)@.launched == old(self)@.launched,
            action is Await ==> final(self)@.running() > 0,
            action is Finish && final(self)@.concurrency >= 1 ==> {
                &&& final(self)@.launched == final(self)@.total_tasks
                &&& final(self)@.completed() == final(self)@.total_tasks
                &&& final(self)@.succeeded() + final(self)@.failed() == final(self)@.total_tasks
            },
    {
        let completed: usize = self.stats.completed();
        let running: usize = self.launched - completed;
        if self.launched < self.total_tasks && running < self.concurrency {
            if self.stagger_due {
                self.stagger_due = false;
                Action::Pause { millis: self.launch_delay_ms }
            } else {
                let id: usize = self.launched + 1;
                let batch: usize = if self.concurrency <= self.total_tasks {
                    self.concurrency
                } else {
                    self.total_tasks
                };
                self.launched = id;
                self.stagger_due = self.launch_delay_ms > 0 && id < batch;
                Action::Launch { id, running: running + 1 }
            }
        } else if running == 0 {
            Action::Finish
        } else {
            Action::Await
        }
    }

    /// Takes in a task that has finished: it is no longer in flight, and
    /// counts as completed and as a success or a failure with its duration.
    /// Returns how many tasks are still in flight.
    pub fn record(&mut self, outcome: &Outcome, duration: Elapsed) -> (running: usize)
        requires
            old(self).wf(),
            old(self)@.running() > 0,
        ensures
            final(self).wf(),
            final(self)@ == old(self)@.record(outcome is Success, duration@),
            running == final(self)@.running(),
            running == old(self)@.running() - 1,
    {
        self.stats.record(outcome, duration);
        self.launched - self.stats.completed()
    }

    /// The report of the run as far as it has come: the counts, the success
    /// rate as a share of all tasks of the run, and for each class that
    /// holds a task the statistics of its durations.
    pub fn snapshot(&self) -> (report: FinalReport)
        requires
            self.wf(),
        ensures
            self@.tally.reported_by(report, self@.total_tasks),
            report.successful + report.failed == report.completed,
            report.completed <= self@.launched,
            report.success_rate.out_of > 0,
            self@.total_tasks == 0 ==> report.success_rate.percent_numerator() == 0,
            self@.total_tasks > 0 ==> report.success_rate.percent_numerator() == 100
                * report.successful && report.success_rate.out_of == self@.total_tasks,
            report.success_durations is Some <==> report.successful > 0,
            report.failure_durations is Some <==> report.failed > 0,
            report.success_durations matches Some(s) ==> s.min@ <= s.average@ <= s.max@,
            report.failure_durations matches Some(s) ==> s.min@ <= s.average@ <= s.max@,
    {
        self.stats.snapshot(self.total_tasks)
    }

    /// How many tasks the run consists of.
    pub fn total_tasks(&self) -> (count: usize)
        ensures
            count == self@.total_tasks,
    {
        self.total_tasks
    }

    /// How many tasks may be in flight at once.
    pub fn concurrency(&self) -> (count: usize)
        ensures
            count == self@.concurrency,
    {
        self.concurrency
    }

    /// How many tasks were launched so far, which is also the highest id
    /// handed out. Never more than the run consists of.
    pub fn launched(&self) -> (count: usize)
        requires
            self.wf(),
        ensures
            count == self@.launched,
            count <= self@.total_tasks,
    {
        self.launched
    }

    /// How many tasks have finished so far. Never more than were launched.
    pub fn completed(&self) -> (count: usize)
        requires
            self.wf(),
        ensures
            count == self@.completed(),
            count == self@.succeeded() + self@.failed(),
            count <= self@.launched,
    {
        self.stats.completed()
    }

    /// How many finished tasks succeeded.
    pub fn succeeded(&self) -> (count: usize)
        ensures
            count == self@.succeeded(),
    {
        self.stats.succeeded()
    }

    /// How many finished tasks failed.
    pub fn failed(&self) -> (count: usize)
        ensures
            count == self@.failed(),
    {
        self.stats.failed()
    }

    /// How many tasks are in flight. Never more than the concurrency
    /// ceiling, nor than the run consists of.
    pub fn running(&self) -> (count: usize)
        requires
            self.wf(),
        ensures
            count == self@.running(),
            count <= self@.concurrency,
            count <= self@.total_tasks,
    {
        self.launched - self.stats.completed()
    }
}

} // verus!
