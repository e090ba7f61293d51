use command_pool::elapsed::Elapsed;
use command_pool::outcome::{classify, Outcome, ProcessOutput};
use command_pool::pool::{Action, Pool};
use command_pool::stats::{FinalReport, SuccessRate};

/// What one simulated run did.
struct Trace {
    actions: Vec<Action>,
    ids: Vec<usize>,
    outcomes: Vec<Outcome>,
    peak_running: usize,
    report: FinalReport,
}

fn exits_with(code: i32) -> Result<ProcessOutput, String> {
    Ok(ProcessOutput { exit_code: Some(code), stdout: String::new(), stderr: String::new() })
}

/// Runs a pool to its end. Every task takes `millis` milliseconds and ends
/// as `spawned(id)` says; the task launched first finishes first.
fn simulate(
    total_tasks: usize,
    concurrency: usize,
    delay: u64,
    millis: u32,
    spawned: &dyn Fn(usize) -> Result<ProcessOutput, String>,
) -> Trace {
    let mut pool = Pool::new(total_tasks, concurrency, delay);
    let mut in_flight: std::collections::VecDeque<usize> = std::collections::VecDeque::new();
    let mut trace = Trace {
        actions: Vec::new(),
        ids: Vec::new(),
        outcomes: Vec::new(),
        peak_running: 0,
        report: pool.snapshot(),
    };
    let mut steps = 0;
    loop {
        steps += 1;
        assert!(steps < 10_000, "the run does not end");
        let action = pool.next_action();
        trace.actions.push(action);
        match action {
            Action::Launch { id, running } => {
                assert_eq!(running, pool.running());
                in_flight.push_back(id);
                trace.ids.push(id);
            }
            Action::Pause { millis } => assert_eq!(millis, delay),
            Action::Await => {
                let id = in_flight.pop_front().expect("waiting with nothing in flight");
                let result = classify(spawned(id));
                let duration = Elapsed::from_parts(0, millis * 1_000_000).unwrap();
                assert!(pool.running() > 0);
                let running = pool.record(&result.outcome, duration);
                assert_eq!(running, in_flight.len());
                trace.outcomes.push(result.outcome);
            }
            Action::Finish => break,
        }
        assert!(pool.running() <= concurrency);
        assert!(pool.running() <= total_tasks);
        assert_eq!(pool.succeeded() + pool.failed(), pool.completed());
        assert_eq!(pool.launched() - pool.completed(), pool.running());
        trace.peak_running = trace.peak_running.max(pool.running());
    }
    assert!(in_flight.is_empty());
    trace.report = pool.snapshot();
    trace
}

#[test]
fn run_of_no_tasks_finishes_at_once_with_empty_report() {
    let mut pool = Pool::new(0, 3, 100);
    assert_eq!(pool.next_action(), Action::Finish);
    assert_eq!(pool.launched(), 0);
    let report = pool.snapshot();
    assert_eq!(report.completed, 0);
    assert_eq!(report.successful, 0);
    assert_eq!(report.failed, 0);
    assert_eq!(report.success_rate, SuccessRate { successes: 0, out_of: 1 });
    assert_eq!(report.success_durations, None);
    assert_eq!(report.failure_durations, None);
}

#[test]
fn five_successes_under_a_ceiling_of_two() {
    let trace = simulate(5, 2, 0, 10, &|_| exits_with(0));
    assert_eq!(trace.report.completed, 5);
    assert_eq!(trace.report.successful, 5);
    assert_eq!(trace.report.failed, 0);
    assert_eq!(trace.report.success_rate, SuccessRate { successes: 5, out_of: 5 });
    assert_eq!(trace.peak_running, 2);
    assert_eq!(trace.ids, vec![1, 2, 3, 4, 5]);
    assert!(trace.report.success_durations.is_some());
    assert_eq!(trace.report.failure_durations, None);
    assert_eq!(
        trace.actions,
        vec![
            Action::Launch { id: 1, running: 1 },
            Action::Launch { id: 2, running: 2 },
            Action::Await,
            Action::Launch { id: 3, running: 2 },
            Action::Await,
            Action::Launch { id: 4, running: 2 },
            Action::Await,
            Action::Launch { id: 5, running: 2 },
            Action::Await,
            Action::Await,
            Action::Finish,
        ]
    );
}

#[test]
fn four_failures_all_at_once() {
    let trace = simulate(4, 4, 0, 10, &|_| exits_with(1));
    assert_eq!(trace.report.completed, 4);
    assert_eq!(trace.report.successful, 0);
    assert_eq!(trace.report.failed, 4);
    assert_eq!(trace.report.success_rate, SuccessRate { successes: 0, out_of: 4 });
    assert_eq!(trace.peak_running, 4);
    assert_eq!(trace.report.success_durations, None);
    assert!(trace.report.failure_durations.is_some());
    for outcome in &trace.outcomes {
        assert_eq!(*outcome, Outcome::ExitFailure { exit_code: 1 });
    }
}

#[test]
fn missing_executable_fails_every_task_and_the_run_still_ends() {
    let trace = simulate(3, 2, 0, 1, &|_| Err(String::from("No such file or directory")));
    assert_eq!(trace.report.completed, 3);
    assert_eq!(trace.report.failed, 3);
    assert_eq!(trace.report.successful, 0);
    assert_eq!(trace.outcomes.len(), 3);
    for outcome in &trace.outcomes {
        assert_eq!(
            *outcome,
            Outcome::SpawnError { message: String::from("No such file or directory") }
        );
        assert_eq!(outcome.exit_code(), None);
        assert!(outcome.is_failure());
    }
    assert_eq!(*trace.actions.last().unwrap(), Action::Finish);
}

#[test]
fn initial_batch_is_staggered_but_not_after_its_last_launch() {
    let trace = simulate(5, 3, 100, 10, &|_| exits_with(0));
    assert_eq!(
        trace.actions[..6].to_vec(),
        vec![
            Action::Launch { id: 1, running: 1 },
            Action::Pause { millis: 100 },
            Action::Launch { id: 2, running: 2 },
            Action::Pause { millis: 100 },
            Action::Launch { id: 3, running: 3 },
            Action::Await,
        ]
    );
    let pauses = trace.actions.iter().filter(|a| matches!(a, Action::Pause { .. })).count();
    assert_eq!(pauses, 2);
    assert_eq!(trace.ids, vec![1, 2, 3, 4, 5]);
}

#[test]
fn replacements_are_not_staggered() {
    let trace = simulate(4, 1, 250, 10, &|_| exits_with(0));
    assert!(trace.actions.iter().all(|a| !matches!(a, Action::Pause { .. })));
    assert_eq!(trace.peak_running, 1);
    assert_eq!(trace.report.successful, 4);
}

#[test]
fn zero_delay_never_pauses() {
    let trace = simulate(6, 3, 0, 10, &|_| exits_with(0));
    assert!(trace.actions.iter().all(|a| !matches!(a, Action::Pause { .. })));
}

#[test]
fn initial_batch_is_the_whole_run_when_the_ceiling_is_higher() {
    let trace = simulate(2, 8, 50, 10, &|_| exits_with(0));
    assert_eq!(
        trace.actions,
        vec![
            Action::Launch { id: 1, running: 1 },
            Action::Pause { millis: 50 },
            Action::Launch { id: 2, running: 2 },
            Action::Await,
            Action::Await,
            Action::Finish,
        ]
    );
    assert_eq!(trace.peak_running, 2);
}

#[test]
fn tasks_that_finish_during_the_stagger_free_no_slot_early() {
    let mut pool = Pool::new(4, 2, 100);
    let d = Elapsed::from_parts(0, 5).unwrap();
    assert_eq!(pool.next_action(), Action::Launch { id: 1, running: 1 });
    assert_eq!(pool.record(&Outcome::Success { exit_code: 0 }, d), 0);
    assert_eq!(pool.next_action(), Action::Pause { millis: 100 });
    assert_eq!(pool.next_action(), Action::Launch { id: 2, running: 1 });
    assert_eq!(pool.next_action(), Action::Launch { id: 3, running: 2 });
    assert_eq!(pool.next_action(), Action::Await);
    assert_eq!(pool.record(&Outcome::Success { exit_code: 0 }, d), 1);
    assert_eq!(pool.next_action(), Action::Launch { id: 4, running: 2 });
    assert_eq!(pool.next_action(), Action::Await);
    assert_eq!(pool.record(&Outcome::ExitFailure { exit_code: 2 }, d), 1);
    assert_eq!(pool.next_action(), Action::Await);
    assert_eq!(pool.record(&Outcome::Success { exit_code: 0 }, d), 0);
    assert_eq!(pool.next_action(), Action::Finish);
    assert_eq!(pool.next_action(), Action::Finish);
    assert_eq!(pool.launched(), 4);
    assert_eq!(pool.completed(), 4);
    assert_eq!(pool.succeeded(), 3);
    assert_eq!(pool.failed(), 1);
}

#[test]
fn zero_concurrency_launches_nothing() {
    let trace = simulate(3, 0, 100, 10, &|_| exits_with(0));
    assert_eq!(trace.actions, vec![Action::Finish]);
    assert_eq!(trace.report.completed, 0);
    assert_eq!(trace.report.success_rate, SuccessRate { successes: 0, out_of: 3 });
}

#[test]
fn mixed_outcomes_are_counted_by_class() {
    let trace = simulate(6, 3, 0, 10, &|id| exits_with((id % 3) as i32));
    assert_eq!(trace.report.completed, 6);
    assert_eq!(trace.report.successful, 2);
    assert_eq!(trace.report.failed, 4);
    assert_eq!(trace.report.success_rate, SuccessRate { successes: 2, out_of: 6 });
    assert_eq!(trace.ids, vec![1, 2, 3, 4, 5, 6]);
}

#[test]
fn completions_at_any_time_and_in_any_order_keep_the_counts_in_bounds() {
    let mut seed: u64 = 0x2545_f491_4f6c_dd1d;
    let mut next = move |bound: usize| -> usize {
        seed = seed.wrapping_mul(6364136223846793005).wrapping_add(1442695040888963407);
        ((seed >> 33) as usize) % bound
    };
    for (total_tasks, concurrency, delay) in
        [(1, 1, 0), (7, 3, 5), (20, 4, 0), (9, 9, 1), (5, 12, 3), (30, 1, 2), (16, 5, 0)]
    {
        let mut pool = Pool::new(total_tasks, concurrency, delay);
        let mut in_flight: Vec<usize> = Vec::new();
        let mut ids: Vec<usize> = Vec::new();
        let mut successes = 0;
        let mut failures = 0;
        let mut finished = false;
        for _ in 0..10_000 {
            // A task in flight may finish at any moment, whatever the scheduler is doing.
            if !in_flight.is_empty() && next(3) == 0 {
                let id = in_flight.swap_remove(next(in_flight.len()));
                let outcome = if id % 2 == 0 {
                    successes += 1;
                    Outcome::Success { exit_code: 0 }
                } else {
                    failures += 1;
                    Outcome::ExitFailure { exit_code: id as i32 }
                };
                let duration = Elapsed::from_parts(id as u64, 0).unwrap();
                assert_eq!(pool.record(&outcome, duration), in_flight.len());
            } else {
                match pool.next_action() {
                    Action::Launch { id, running } => {
                        in_flight.push(id);
                        ids.push(id);
                        assert_eq!(running, in_flight.len());
                    }
                    Action::Pause { millis } => {
                        assert_eq!(millis, delay);
                        assert!(delay > 0);
                        assert!(ids.len() < concurrency.min(total_tasks));
                    }
                    Action::Await => assert!(!in_flight.is_empty()),
                    Action::Finish => {
                        finished = true;
                        break;
                    }
                }
            }
            assert_eq!(pool.running(), in_flight.len());
            assert!(pool.running() <= concurrency.min(total_tasks));
            assert_eq!(pool.launched(), ids.len());
            assert_eq!(pool.completed(), successes + failures);
            assert_eq!(pool.succeeded(), successes);
            assert_eq!(pool.failed(), failures);
        }
        assert!(finished);
        assert!(in_flight.is_empty());
        assert_eq!(ids, (1..=total_tasks).collect::<Vec<usize>>());
        let report = pool.snapshot();
        assert_eq!(report.completed, total_tasks);
        assert_eq!(report.successful + report.failed, total_tasks);
        assert_eq!(report.successful, total_tasks / 2);
        assert_eq!(
            report.success_rate,
            SuccessRate { successes: total_tasks / 2, out_of: total_tasks }
        );
    }
}

#[test]
fn report_of_a_run_gives_the_statistics_of_each_class() {
    let mut pool = Pool::new(3, 3, 0);
    for id in 1..=3 {
        assert_eq!(pool.next_action(), Action::Launch { id, running: id });
    }
    assert_eq!(pool.next_action(), Action::Await);
    let fast = Elapsed::from_parts(0, 250_000_000).unwrap();
    let slow = Elapsed::from_parts(2, 750_000_000).unwrap();
    let failed = Elapsed::from_parts(61, 0).unwrap();
    assert_eq!(pool.record(&Outcome::Success { exit_code: 0 }, slow), 2);
    assert_eq!(pool.record(&Outcome::SpawnError { message: String::from("gone") }, failed), 1);
    assert_eq!(pool.record(&Outcome::Success { exit_code: 0 }, fast), 0);
    assert_eq!(pool.next_action(), Action::Finish);
    let report = pool.snapshot();
    assert_eq!(report.completed, 3);
    assert_eq!(report.success_rate, SuccessRate { successes: 2, out_of: 3 });
    let successes = report.success_durations.unwrap();
    assert_eq!(successes.min, fast);
    assert_eq!(successes.max, slow);
    assert_eq!(successes.average, Elapsed::from_parts(1, 500_000_000).unwrap());
    let failures = report.failure_durations.unwrap();
    assert_eq!(failures.min, failed);
    assert_eq!(failures.max, failed);
    assert_eq!(failures.average, failed);
}
