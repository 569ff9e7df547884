//! Keeping the ONVIF tasks running.

use vstd::prelude::*;
use vstd::string::*;
use crate::common::backoff;
use crate::common::backoff::Backoff;

verus! {

/// How long to wait before restarting a task that came back, in milliseconds.
/// Doubles on every consecutive restart.
pub const RESTART_BACKOFF_MIN: u64 = 1_000;

pub const RESTART_BACKOFF_MAX: u64 = 30_000;

/// A task that stayed up at least this long counts as healthy: its next failure
/// starts over from [`RESTART_BACKOFF_MIN`].
pub const RESTART_BACKOFF_RESET: u64 = 60_000;

/// Restarts a task whenever it comes back, until it is cancelled.
#[derive(Debug)]
pub struct Supervisor {
    pub backoff: Backoff,
}

/// How long a task that ended waits for its restart: as long as it is its turn to, or
/// the shortest where it ran for long enough.
pub open spec fn restart_wait(delay: u64, uptime: u64) -> u64 {
    if uptime >= RESTART_BACKOFF_RESET {
        RESTART_BACKOFF_MIN
    } else {
        delay
    }
}

/// How long it is the turn of a task to wait the next time.
pub open spec fn delay_after(wait: u64) -> u64 {
    backoff::doubled(wait, RESTART_BACKOFF_MAX)
}

impl Supervisor {
    /// What every supervisor keeps.
    pub open spec fn wf(&self) -> bool {
        &&& self.backoff.wf()
        &&& self.backoff.min == RESTART_BACKOFF_MIN
        &&& self.backoff.max == RESTART_BACKOFF_MAX
    }

    pub fn new() -> (supervisor: Self)
        ensures
            supervisor.wf(),
            supervisor.backoff.delay == RESTART_BACKOFF_MIN,
    {
        Supervisor { backoff: Backoff::new(RESTART_BACKOFF_MIN, RESTART_BACKOFF_MAX) }
    }

    /// The task came back, however it ended, having run for `uptime`
    /// milliseconds. `None` means that this is the end of it; otherwise it is
    /// restarted after this many milliseconds.
    ///
    /// A clean return is just as much a failure as an error: the service it was
    /// providing is gone either way.
    pub fn supervise(&mut self, cancelled: bool, uptime: u64) -> (wait: Option<u64>)
        requires
            old(self).wf(),
        ensures
            final(self).wf(),
            cancelled ==> wait is None && *final(self) == *old(self),
            !cancelled ==> wait == Some(restart_wait(old(self).backoff.delay, uptime))
                && final(self).backoff.delay == delay_after(restart_wait(
                old(self).backoff.delay,
                uptime,
            )),
    {
        if cancelled {
            return None;
        }
        if uptime >= RESTART_BACKOFF_RESET {
            self.backoff.reset();
        }
        Some(self.backoff.next())
    }
}

/// How the first of the ONVIF tasks came back.
#[derive(Debug)]
pub enum FirstExit {
    /// There was none to come back.
    NoTasks,
    /// It panicked, saying this.
    Panicked(String),
    /// It failed.
    Failed(&'static str),
    /// It returned.
    Returned(&'static str),
}

/// What stopping for the first task that came back is explained with.
pub open spec fn exit_reason(exit: FirstExit) -> Seq<char> {
    match exit {
        FirstExit::NoTasks => "ONVIF has no tasks to run"@,
        FirstExit::Panicked(said) => said@,
        FirstExit::Failed(name) => "ONVIF "@ + name@ + " task failed"@,
        FirstExit::Returned(name) => "ONVIF "@ + name@ + " task exited unexpectedly"@,
    }
}

/// None of the tasks should come back, so the first that does, even cleanly, is
/// an error: part of the bridge has stopped serving.
pub fn wait_first(exit: FirstExit) -> (reason: String)
    ensures
        reason@ == exit_reason(exit),
{
    match exit {
        FirstExit::NoTasks => "ONVIF has no tasks to run".to_owned(),
        FirstExit::Panicked(said) => said,
        FirstExit::Failed(name) => {
            let mut reason = "ONVIF ".to_owned();
            reason.append(name);
            reason.append(" task failed");
            reason
        },
        FirstExit::Returned(name) => {
            let mut reason = "ONVIF ".to_owned();
            reason.append(name);
            reason.append(" task exited unexpectedly");
            reason
        },
    }
}

/// A task that ran for a minute is restarted after a second, and one that did not after
/// the delay whose turn it is, which doubles up to half a minute.
pub proof fn law_restarts_slow_down_and_recover(delay: u64, uptime: u64, wait: u64)
    ensures
        uptime >= 60_000 ==> restart_wait(delay, uptime) == 1_000,
        uptime < 60_000 ==> restart_wait(delay, uptime) == delay,
        wait <= 15_000 ==> delay_after(wait) == 2 * wait,
        wait > 15_000 ==> delay_after(wait) == 30_000,
{
}

/// A failure names the task that failed, and says how it ended.
pub proof fn law_failures_name_their_task(name: &'static str, said: String)
    ensures
        exit_reason(FirstExit::NoTasks) == "ONVIF has no tasks to run"@,
        exit_reason(FirstExit::Panicked(said)) == said@,
        exit_reason(FirstExit::Failed(name)) == "ONVIF "@ + name@ + " task failed"@,
        exit_reason(FirstExit::Returned(name)) == "ONVIF "@ + name@
            + " task exited unexpectedly"@,
{
}

} // verus!
