//! Statistics over the durations of finished tasks.

use crate::elapsed::{max_nanos, Elapsed};
use crate::outcome::Outcome;
use vstd::prelude::*;

verus! {

/// The lengths, in nanoseconds, of the spans in a log.
pub open spec fn nanos_of(log: Seq<Elapsed>) -> Seq<nat> {
    log.map_values(|e: Elapsed| e@)
}

/// The sum of all samples.
pub open spec fn total(samples: Seq<nat>) -> nat
    decreases samples.len(),
{
    if samples.len() == 0 {
        0
    } else {
        total(samples.drop_last()) + samples.last()
    }
}

/// `m` is one of the samples and none is smaller.
pub open spec fn is_least(samples: Seq<nat>, m: nat) -> bool {
    &&& exists|i: int| 0 <= i < samples.len() && samples[i] == m
    &&& forall|i: int| 0 <= i < samples.len() ==> m <= samples[i]
}

/// `m` is one of the samples and none is larger.
pub open spec fn is_greatest(samples: Seq<nat>, m: nat) -> bool {
    &&& exists|i: int| 0 <= i < samples.len() && samples[i] == m
    &&& forall|i: int| 0 <= i < samples.len() ==> samples[i] <= m
}

/// The average of the samples, rounded down to a whole nanosecond.
pub open spec fn mean(samples: Seq<nat>) -> nat
    recommends
        samples.len() > 0,
{
    total(samples) / samples.len()
}

/// Average, shortest and longest duration of one class of tasks.
#[derive(Clone, Copy, Debug, PartialEq, Eq, Structural)]
pub struct DurationStats {
    pub average: Elapsed,
    pub min: Elapsed,
    pub max: Elapsed,
}

impl DurationStats {
    /// These statistics are those of `samples`.
    pub open spec fn describes(self, samples: Seq<nat>) -> bool {
        &&& samples.len() > 0
        &&& self.average@ == mean(samples)
        &&& is_least(samples, self.min@)
        &&& is_greatest(samples, self.max@)
    }
}

/// Extending a sequence by one sample adds that sample to the total.
pub proof fn lemma_total_push(samples: Seq<nat>, x: nat)
    ensures
        total(samples.push(x)) == total(samples) + x,
{
    assert(samples.push(x).drop_last() =~= samples);
}

/// The total lies between the sample count times a lower bound of all
/// samples and the count times an upper bound.
pub proof fn lemma_total_bounds(samples: Seq<nat>, low: nat, high: nat)
    requires
        forall|i: int|
            0 <= i < samples.len() ==> low <= #[trigger] samples[i] && samples[i] <= high,
    ensures
        samples.len() * low <= total(samples) <= samples.len() * high,
    decreases samples.len(),
{
    if samples.len() > 0 {
        lemma_total_bounds(samples.drop_last(), low, high);
        let n = samples.len() as int;
        assert((n - 1) * low + low == n * low) by (nonlinear_arith);
        assert((n - 1) * high + high == n * high) by (nonlinear_arith);
    }
}

/// The average of a non-empty sequence lies between its least and its
/// greatest sample.
pub proof fn lemma_mean_between(samples: Seq<nat>, low: nat, high: nat)
    requires
        samples.len() > 0,
        is_least(samples, low),
        is_greatest(samples, high),
    ensures
        low <= mean(samples) <= high,
{
    lemma_total_bounds(samples, low, high);
    let n = samples.len() as int;
    let t = total(samples) as int;
    assert(low <= t / n <= high) by (nonlinear_arith)
        requires
            n > 0,
            n * low <= t <= n * high,
    ;
}

/// The statistics of a log of durations: none for an empty log, else the
/// average (rounded down to a whole nanosecond), the shortest and the
/// longest.
///
/// The average is accumulated as quotients and remainders by the sample
/// count, so that no intermediate sum can overflow however long the log.
pub fn summarize(log: &Vec<Elapsed>) -> (stats: Option<DurationStats>)
    ensures
        stats is None <==> log@.len() == 0,
        stats matches Some(s) ==> s.describes(nanos_of(log@)),
        stats matches Some(s) ==> s.min@ <= s.average@ <= s.max@,
{
    let count: usize = log.len();
    if count == 0 {
        return None;
    }
    let ghost samples = nanos_of(log@);
    let k: u128 = count as u128;
    let mut least: Elapsed = log[0];
    let mut greatest: Elapsed = log[0];
    let mut low: u128 = least.as_nanos();
    let mut high: u128 = low;
    let mut quotients: u128 = 0;
    let mut remainders: u128 = 0;
    let mut i: usize = 0;
    proof {
        assert(samples.subrange(0, 0) =~= Seq::<nat>::empty());
        assert(samples[0] == low);
    }
    while i < count
        invariant
            0 <= i <= count,
            count == log@.len(),
            count > 0,
            k == count,
            samples == nanos_of(log@),
            total(samples.subrange(0, i as int)) == k * quotients + remainders,
            remainders <= i * (k - 1),
            exists|j: int| 0 <= j < samples.len() && samples[j] == least@,
            exists|j: int| 0 <= j < samples.len() && samples[j] == greatest@,
            forall|j: int| 0 <= j < i ==> least@ <= #[trigger] samples[j] && samples[j] <= greatest@,
            low == least@,
            high == greatest@,
            high <= max_nanos(),
        decreases count - i,
    {
        let sample: Elapsed = log[i];
        let d: u128 = sample.as_nanos();
        assert(samples[i as int] == d);
        if d < low {
            least = sample;
            low = d;
        }
        if d > high {
            greatest = sample;
            high = d;
        }
        proof {
            let before = samples.subrange(0, i as int);
            let after = samples.subrange(0, i + 1);
            assert(after =~= before.push(d as nat));
            lemma_total_push(before, d as nat);
            assert forall|j: int| 0 <= j < after.len() implies 0 <= #[trigger] after[j]
                && after[j] <= greatest@ by {
                assert(after[j] == samples[j]);
            }
            lemma_total_bounds(after, 0, greatest@);
            let q = quotients as int;
            let r = remainders as int;
            let kk = k as int;
            let dd = d as int;
            let ii = i as int;
            let g = greatest@ as int;
            assert(kk * (q + dd / kk) + (r + dd % kk) == kk * q + r + dd) by (nonlinear_arith)
                requires
                    kk > 0,
            ;
            assert(r + dd % kk <= (ii + 1) * (kk - 1)) by (nonlinear_arith)
                requires
                    kk > 0,
                    r <= ii * (kk - 1),
            ;
            assert((ii + 1) * (kk - 1) <= 0xffff_ffff_ffff_ffff * 0xffff_ffff_ffff_ffff)
                by (nonlinear_arith)
                requires
                    0 <= ii < kk,
                    kk <= 0xffff_ffff_ffff_ffff,
            ;
            assert(q + dd / kk <= g) by (nonlinear_arith)
                requires
                    kk > 0,
                    q >= 0,
                    dd >= 0,
                    r + dd % kk >= 0,
                    kk * (q + dd / kk) + (r + dd % kk) <= (ii + 1) * g,
                    ii + 1 <= kk,
                    g >= 0,
            ;
        }
        quotients = quotients + d / k;
        remainders = remainders + d % k;
        i = i + 1;
    }
    proof {
        assert(samples.subrange(0, count as int) =~= samples);
        assert(is_least(samples, least@));
        assert(is_greatest(samples, greatest@));
        lemma_mean_between(samples, least@, greatest@);
        let q = quotients as int;
        let r = remainders as int;
        let kk = k as int;
        assert((kk * q + r) / kk == q + r / kk) by (nonlinear_arith)
            requires
                kk > 0,
                r >= 0,
        ;
    }
    // The average is at most the longest sample, so it always fits.
    match Elapsed::from_nanos(quotients + remainders / k) {
        Some(average) => Some(DurationStats { average, min: least, max: greatest }),
        None => None,
    }
}

/// The share of successful tasks, kept exact as a fraction.
///
/// The rate in percent is `100 * successes / out_of`; `out_of` is never zero.
#[derive(Clone, Copy, Debug, PartialEq, Eq, Structural)]
pub struct SuccessRate {
    pub successes: usize,
    pub out_of: usize,
}

impl SuccessRate {
    /// The rate in percent is this number divided by `out_of`.
    pub open spec fn percent_numerator(self) -> nat {
        100 * self.successes as nat
    }
}

/// The success rate of a run of `total_tasks` tasks of which `successful`
/// succeeded: `successful / total_tasks`, and zero for a run of no tasks.
pub open spec fn success_rate_of(successful: nat, total_tasks: nat) -> SuccessRate {
    if total_tasks > 0 {
        SuccessRate { successes: successful as usize, out_of: total_tasks as usize }
    } else {
        SuccessRate { successes: 0, out_of: 1 }
    }
}

/// The aggregate result of a run.
#[derive(Clone, Copy, Debug, PartialEq, Eq)]
pub struct FinalReport {
    /// How many tasks finished.
    pub completed: usize,
    /// How many of them succeeded.
    pub successful: usize,
    /// How many of them failed.
    pub failed: usize,
    /// The successful tasks as a share of all tasks of the run.
    pub success_rate: SuccessRate,
    /// Duration statistics of the successful tasks, if there were any.
    pub success_durations: Option<DurationStats>,
    /// Duration statistics of the failed tasks, if there were any.
    pub failure_durations: Option<DurationStats>,
}

/// The statistics `stats` are those that belong to `samples`: absent for no
/// samples, else describing them.
pub open spec fn stats_match(stats: Option<DurationStats>, samples: Seq<nat>) -> bool {
    match stats {
        Some(s) => s.describes(samples),
        None => samples.len() == 0,
    }
}

/// What the aggregator has recorded: the log of the durations of the
/// successful tasks and that of the failed tasks, in nanoseconds, each in
/// the order of recording. The counts are the lengths of the logs.
pub struct Tally {
    pub successes: Seq<nat>,
    pub failures: Seq<nat>,
}

impl Tally {
    /// Nothing recorded yet.
    pub open spec fn empty() -> Tally {
        Tally { successes: Seq::empty(), failures: Seq::empty() }
    }

    pub open spec fn succeeded(self) -> nat {
        self.successes.len()
    }

    pub open spec fn failed(self) -> nat {
        self.failures.len()
    }

    pub open spec fn completed(self) -> nat {
        self.successes.len() + self.failures.len()
    }

    /// The tally after one more task, of `nanos` nanoseconds, was recorded.
    pub open spec fn record(self, success: bool, nanos: nat) -> Tally {
        if success {
            Tally { successes: self.successes.push(nanos), failures: self.failures }
        } else {
            Tally { successes: self.successes, failures: self.failures.push(nanos) }
        }
    }

    /// `report` is the report of this tally for a run of `total_tasks`.
    pub open spec fn reported_by(self, report: FinalReport, total_tasks: nat) -> bool {
        &&& report.completed == self.completed()
        &&& report.successful == self.succeeded()
        &&& report.failed == self.failed()
        &&& report.success_rate == success_rate_of(self.succeeded(), total_tasks)
        &&& stats_match(report.success_durations, self.successes)
        &&& stats_match(report.failure_durations, self.failures)
    }
}

/// What holds of every report of a tally: the successes and failures make
/// up the completed tasks; the success rate in percent is a hundred times
/// the successes divided by the tasks of the run, and zero for a run of no
/// tasks; duration statistics appear for exactly the classes that hold a
/// task, and their average lies between their minimum and maximum.
pub proof fn lemma_report_facts(tally: Tally, report: FinalReport, total_tasks: nat)
    requires
        tally.reported_by(report, total_tasks),
        tally.succeeded() <= usize::MAX,
        total_tasks <= usize::MAX,
    ensures
        report.successful + report.failed == report.completed,
        report.success_rate.out_of > 0,
        total_tasks == 0 ==> report.success_rate.percent_numerator() == 0,
        total_tasks > 0 ==> report.success_rate.percent_numerator() == 100 * report.successful
            && report.success_rate.out_of == total_tasks,
        report.success_durations is Some <==> report.successful > 0,
        report.failure_durations is Some <==> report.failed > 0,
        report.success_durations matches Some(s) ==> s.min@ <= s.average@ <= s.max@,
        report.failure_durations matches Some(s) ==> s.min@ <= s.average@ <= s.max@,
{
    if let Some(s) = report.success_durations {
        lemma_mean_between(tally.successes, s.min@, s.max@);
    }
    if let Some(s) = report.failure_durations {
        lemma_mean_between(tally.failures, s.min@, s.max@);
    }
}

/// Accumulates, task by task, how many succeeded and failed and how long
/// each took. One call of [`StatsAggregator::record`] takes in a whole task,
/// so the counts never disagree with the duration logs.
pub struct StatsAggregator {
    successes: Vec<Elapsed>,
    failures: Vec<Elapsed>,
}

impl View for StatsAggregator {
    type V = Tally;

    closed spec fn view(&self) -> Tally {
        Tally { successes: nanos_of(self.successes@), failures: nanos_of(self.failures@) }
    }
}

impl StatsAggregator {
    /// The number of recorded tasks fits the machine's counter.
    /// [`StatsAggregator::new`] makes such an aggregator and recording keeps
    /// it so.
    pub open spec fn wf(&self) -> bool {
        self@.completed() <= usize::MAX
    }

    /// An aggregator that has recorded nothing.
    pub fn new() -> (stats: StatsAggregator)
        ensures
            stats.wf(),
            stats@ == Tally::empty(),
    {
        let stats = StatsAggregator { successes: Vec::new(), failures: Vec::new() };
        assert(stats@.successes =~= Seq::<nat>::empty());
        assert(stats@.failures =~= Seq::<nat>::empty());
        stats
    }

    /// Takes in one finished task: counts it as completed and as a success
    /// or a failure, and appends its duration to the log of its class.
    pub fn record(&mut self, outcome: &Outcome, duration: Elapsed)
        requires
            old(self).wf(),
            old(self)@.completed() < usize::MAX,
        ensures
            final(self).wf(),
            final(self)@ == old(self)@.record(outcome is Success, duration@),
    {
        if outcome.is_success() {
            self.successes.push(duration);
            assert(self@.successes =~= old(self)@.successes.push(duration@));
        } else {
            self.failures.push(duration);
            assert(self@.failures =~= old(self)@.failures.push(duration@));
        }
    }

    /// How many tasks have been recorded.
    pub fn completed(&self) -> (count: usize)
        requires
            self.wf(),
        ensures
            count == self@.completed(),
            count == self@.succeeded() + self@.failed(),
    {
        self.successes.len() + self.failures.len()
    }

    /// How many recorded tasks succeeded.
    pub fn succeeded(&self) -> (count: usize)
        ensures
            count == self@.succeeded(),
    {
        self.successes.len()
    }

    /// How many recorded tasks failed.
    pub fn failed(&self) -> (count: usize)
        ensures
            count == self@.failed(),
    {
        self.failures.len()
    }

    /// The report of what has been recorded, for a run of `total_tasks`
    /// tasks. Duration statistics appear for exactly those classes that
    /// hold a task.
    pub fn snapshot(&self, total_tasks: usize) -> (report: FinalReport)
        requires
            self.wf(),
        ensures
            self@.reported_by(report, total_tasks as nat),
            report.successful + report.failed == report.completed,
            report.success_rate.out_of > 0,
            total_tasks == 0 ==> report.success_rate.percent_numerator() == 0,
            total_tasks > 0 ==> report.success_rate.percent_numerator() == 100 * report.successful
                && report.success_rate.out_of == total_tasks,
            report.success_durations is Some <==> report.successful > 0,
            report.failure_durations is Some <==> report.failed > 0,
            report.success_durations matches Some(s) ==> s.min@ <= s.average@ <= s.max@,
            report.failure_durations matches Some(s) ==> s.min@ <= s.average@ <= s.max@,
    {
        let successful: usize = self.successes.len();
        let failed: usize = self.failures.len();
        let success_rate = if total_tasks > 0 {
            SuccessRate { successes: successful, out_of: total_tasks }
        } else {
            SuccessRate { successes: 0, out_of: 1 }
        };
        let report = FinalReport {
            completed: successful + failed,
            successful,
            failed,
            success_rate,
            success_durations: summarize(&self.successes),
            failure_durations: summarize(&self.failures),
        };
        proof {
            lemma_report_facts(self@, report, total_tasks as nat);
        }
        report
    }
}

} // verus!
