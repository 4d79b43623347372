//! The task pool and the runner protocol, driven as the application
//! drives them.

use wherehouse::package_manager::Command;
use wherehouse::package_manager::PollAction;
use wherehouse::package_manager::PollEvent;
use wherehouse::package_manager::RunnerState;
use wherehouse::package_manager::RunnerVerdict;
use wherehouse::task_manager::TaskManager;
use wherehouse::worker::WorkerEvent;
use wherehouse::worker::worker_poll;

#[test]
fn execute_signals_previous_worker_in_same_slot() {
    let mut pool = TaskManager::new();
    let first = pool.execute(Command::FilterPackages).unwrap();
    // Nothing has superseded the first worker yet.
    assert!(first.try_recv().is_err());
    let second = pool.execute(Command::FilterPackages).unwrap();
    // The moment the second issue returned, the first worker's signal had
    // been fired.
    assert_eq!(first.try_recv(), Ok(true));
    // The new worker itself is not signalled.
    assert!(second.try_recv().is_err());
}

#[test]
fn execute_three_times_signals_each_superseded_worker() {
    let mut pool = TaskManager::new();
    let first = pool.execute(Command::PackageInfo).unwrap();
    let second = pool.execute(Command::PackageInfo).unwrap();
    let third = pool.execute(Command::PackageInfo).unwrap();
    assert_eq!(first.try_recv(), Ok(true));
    assert_eq!(second.try_recv(), Ok(true));
    assert!(third.try_recv().is_err());
}

#[test]
fn execute_leaves_other_slots_alone() {
    let mut pool = TaskManager::new();
    let info = pool.execute(Command::PackageInfo).unwrap();
    let filter = pool.execute(Command::FilterPackages).unwrap();
    let health = pool.execute(Command::CheckHealth).unwrap();
    // Superseding the filter slot touches neither the info nor the
    // health worker.
    let filter2 = pool.execute(Command::FilterPackages).unwrap();
    assert_eq!(filter.try_recv(), Ok(true));
    assert!(info.try_recv().is_err());
    assert!(health.try_recv().is_err());
    assert!(filter2.try_recv().is_err());
}

#[test]
fn stop_succeeds_after_receiver_is_gone() {
    let mut pool = TaskManager::new();
    let receiver = pool.execute(Command::Clean).unwrap();
    drop(receiver);
    // Superseding fires the signal at a worker that already finished;
    // that must not fail the caller.
    assert!(pool.execute(Command::Clean).is_ok());
}

#[test]
fn runner_keeps_polling_until_something_happens() {
    let mut runner = RunnerState::start();
    assert_eq!(runner.step(PollEvent::Nothing), PollAction::KeepPolling);
    assert_eq!(runner.step(PollEvent::StaleNotice(false)), PollAction::KeepPolling);
    assert_eq!(runner.verdict, RunnerVerdict::Pending);
    assert!(!runner.stdout_joined);
    assert!(!runner.stderr_joined);
}

#[test]
fn runner_collects_streams_when_child_exits() {
    let mut runner = RunnerState::start();
    assert_eq!(runner.step(PollEvent::ChildExited), PollAction::CollectStreams);
    assert_eq!(runner.verdict, RunnerVerdict::Completed);
    assert!(runner.child_exited);
    assert!(!runner.child_killed);
    // Collecting receives both streams: no reader thread survives.
    assert!(runner.stdout_joined);
    assert!(runner.stderr_joined);
}

#[test]
fn runner_kills_child_and_joins_readers_on_stale_notice() {
    let mut runner = RunnerState::start();
    assert_eq!(runner.step(PollEvent::Nothing), PollAction::KeepPolling);
    assert_eq!(
        runner.step(PollEvent::StaleNotice(true)),
        PollAction::KillChildAndJoinReaders
    );
    assert_eq!(runner.verdict, RunnerVerdict::Cancelled);
    assert!(runner.child_killed);
    assert!(runner.stdout_joined);
    assert!(runner.stderr_joined);
}

#[test]
fn worker_poll_refreshes_only_on_changed_query() {
    let cached = String::from("wge");
    let current = String::from("wget");
    let step = worker_poll(&cached, &current, Some(WorkerEvent::UpdateSearch), false);
    assert!(step.refresh);
    assert!(!step.quit);

    let same = worker_poll(&current, &current, Some(WorkerEvent::UpdateSearch), false);
    assert!(!same.refresh);

    let no_event = worker_poll(&cached, &current, None, true);
    assert!(!no_event.refresh);
    assert!(no_event.quit);
}
