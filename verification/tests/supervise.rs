//! Tasks that have to keep running.

use neolink::onvif::supervise::{wait_first, FirstExit, Supervisor};

/// Runs a task under a supervisor, as the bridge does, without the waiting.
fn run(mut cancelled_after: usize) -> usize {
    let mut supervisor = Supervisor::new();
    let mut runs = 0;
    loop {
        runs += 1;
        cancelled_after = cancelled_after.saturating_sub(1);
        if supervisor.supervise(cancelled_after == 0, 0).is_none() {
            return runs;
        }
    }
}

/// A supervised task that returns is not a task that finished its job.
#[test]
fn a_task_that_returns_cleanly_is_restarted() {
    assert_eq!(run(2), 2);
}

#[test]
fn a_cancelled_supervisor_does_not_restart_its_task() {
    assert_eq!(run(0), 1);
}

#[test]
fn a_clean_exit_is_reported_as_a_failure() {
    let err = wait_first(FirstExit::Returned("HTTP server"));
    assert!(err.contains("HTTP server"), "{err}");
}

#[test]
fn a_failed_task_is_named_in_the_error() {
    let err = wait_first(FirstExit::Failed("WS-Discovery"));
    assert!(err.contains("WS-Discovery"), "{err}");
    let err = wait_first(FirstExit::Panicked("socket is gone".to_string()));
    assert!(err.contains("socket is gone"), "{err}");
    assert_eq!(wait_first(FirstExit::NoTasks), "ONVIF has no tasks to run");
}

#[test]
fn restarts_slow_down_and_recover() {
    let mut supervisor = Supervisor::new();
    let first = supervisor.supervise(false, 0).unwrap();
    let second = supervisor.supervise(false, 0).unwrap();
    assert_eq!(second, first * 2);
    assert_eq!(supervisor.supervise(false, 10_000_000), Some(first));
}
