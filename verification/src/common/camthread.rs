//! Keeping a camera connected.

use vstd::prelude::*;
use vstd::string::*;

verus! {

/// Whether a camera is meant to be connected.
#[derive(Clone, Copy, PartialEq, Eq, Structural, Debug)]
pub enum NeoCamThreadState {
    Connected,
    Disconnected,
}

/// The longest wait before another attempt to connect, in milliseconds.
pub const MAX_BACKOFF: u64 = 5_000;

/// The shortest wait before another attempt to connect, in milliseconds.
pub const MIN_BACKOFF: u64 = 50;

/// A connection that lasted longer than this counts as a success, in
/// milliseconds.
pub const SUCCESS_AFTER: u64 = 60_000;

/// How many pings in a row may go unanswered.
pub const MAX_MISSED_PINGS: u32 = 5;

/// How long a ping may take, in milliseconds.
pub const PING_TIMEOUT: u64 = 5_000;

/// How a ping went.
#[derive(Clone, Copy, PartialEq, Eq, Structural, Debug)]
pub enum Ping {
    Answered,
    /// The camera does not support pings.
    Unsupported,
    Failed,
    TimedOut,
}

/// What to do after a ping.
#[derive(Clone, Copy, PartialEq, Eq, Structural, Debug)]
pub enum PingStep {
    /// Go on; the connection was stable for so many seconds.
    Stable(u64),
    /// Go on, after a ping that was missed.
    Missed,
    /// Send no more pings.
    Silent,
    /// The ping failed after so many seconds of silence; so has the connection.
    Broken(u64),
    /// Too many pings were missed, after so many seconds of silence.
    Dead(u64),
}

/// What a connection without replies is given up with.
pub fn ping_timeout_reason() -> (reason: &'static str)
    ensures
        reason@ == "Timed out waiting for camera ping reply"@,
{
    "Timed out waiting for camera ping reply"
}

/// The pings of a connection, on a clock that counts milliseconds.
#[derive(Clone, Copy, PartialEq, Eq, Structural, Debug)]
pub struct Pings {
    pub last_recv: u64,
    pub missed: u32,
}

/// Whole seconds between two points in time.
pub open spec fn seconds_between(from: u64, to: u64) -> int {
    if to >= from {
        (to - from) / 1_000
    } else {
        0
    }
}

fn seconds_since(from: u64, to: u64) -> (secs: u64)
    ensures
        secs == seconds_between(from, to),
{
    if to >= from {
        (to - from) / 1_000
    } else {
        0
    }
}

/// What a ping changes, and what comes of it.
pub open spec fn noticed(pings: Pings, ping: Ping, started: u64, now: u64) -> (Pings, PingStep) {
    let silence = seconds_between(pings.last_recv, started) as u64;
    match ping {
        Ping::Answered => (Pings { last_recv: now, missed: 0 }, PingStep::Stable(silence)),
        Ping::Unsupported => (pings, PingStep::Silent),
        Ping::Failed => (pings, PingStep::Broken(silence)),
        Ping::TimedOut => if pings.missed < MAX_MISSED_PINGS {
            (Pings { missed: (pings.missed + 1) as u32, ..pings }, PingStep::Missed)
        } else {
            (pings, PingStep::Dead(silence))
        },
    }
}

impl Pings {
    /// What every series of pings keeps.
    pub open spec fn wf(&self) -> bool {
        self.missed <= MAX_MISSED_PINGS
    }

    /// A connection was made.
    pub fn new(now: u64) -> (pings: Self)
        ensures
            pings.wf(),
            pings == (Pings { last_recv: now, missed: 0 }),
    {
        Pings { last_recv: now, missed: 0 }
    }

    /// A ping that was sent at `started` went like this, which is known now. A
    /// camera gets five strikes before it is declared dead.
    pub fn notice(&mut self, ping: Ping, started: u64, now: u64) -> (step: PingStep)
        requires
            old(self).wf(),
        ensures
            final(self).wf(),
            (*final(self), step) == noticed(*old(self), ping, started, now),
    {
        let silence: u64 = seconds_since(self.last_recv, started);
        match ping {
            Ping::Answered => {
                self.missed = 0;
                self.last_recv = now;
                PingStep::Stable(silence)
            },
            Ping::Unsupported => PingStep::Silent,
            Ping::Failed => PingStep::Broken(silence),
            Ping::TimedOut => {
                if self.missed < MAX_MISSED_PINGS {
                    self.missed = self.missed + 1;
                    PingStep::Missed
                } else {
                    PingStep::Dead(silence)
                }
            },
        }
    }
}

/// How a connection ended.
#[derive(Clone, Copy, PartialEq, Eq, Structural, Debug)]
pub enum CameraEnd {
    /// The settings changed, or the camera is to be disconnected.
    Reload,
    /// It was shut down.
    Shutdown,
    /// The camera did not accept the login.
    LoginFailed,
    /// It was lost.
    Lost,
}

/// What to do once a connection has ended.
#[derive(Clone, Copy, PartialEq, Eq, Structural, Debug)]
pub enum CameraStep {
    /// Start over at once.
    Again,
    /// This was the end.
    Finish,
    /// Give up: trying again would not help.
    GiveUp,
    /// Start over after so many milliseconds.
    Wait(u64),
}

/// Attempts to keep a camera connected.
#[derive(Clone, Copy, PartialEq, Eq, Structural, Debug)]
pub struct CameraRun {
    pub backoff: u64,
}

/// How long to wait now, given how long the connection lasted.
pub open spec fn wait_now(backoff: u64, lasted: u64) -> u64 {
    if lasted > SUCCESS_AFTER {
        MIN_BACKOFF
    } else if backoff > MAX_BACKOFF {
        MAX_BACKOFF
    } else {
        backoff
    }
}

/// What the end of a connection changes, and what comes of it.
pub open spec fn ended_as(run: CameraRun, end: CameraEnd, lasted: u64) -> (CameraRun, CameraStep) {
    let wait = wait_now(run.backoff, lasted);
    match end {
        CameraEnd::Reload => (run, CameraStep::Again),
        CameraEnd::Shutdown => (CameraRun { backoff: wait }, CameraStep::Finish),
        CameraEnd::LoginFailed => (CameraRun { backoff: wait }, CameraStep::GiveUp),
        CameraEnd::Lost => (CameraRun { backoff: (2 * wait) as u64 }, CameraStep::Wait(wait)),
    }
}

impl CameraRun {
    /// What every run keeps.
    pub open spec fn wf(&self) -> bool {
        MIN_BACKOFF <= self.backoff <= 2 * MAX_BACKOFF
    }

    pub fn new() -> (run: Self)
        ensures
            run.wf(),
            run.backoff == MIN_BACKOFF,
    {
        CameraRun { backoff: MIN_BACKOFF }
    }

    /// A connection that lasted so many milliseconds ended.
    pub fn ended(&mut self, end: CameraEnd, lasted: u64) -> (step: CameraStep)
        requires
            old(self).wf(),
        ensures
            final(self).wf(),
            (*final(self), step) == ended_as(*old(self), end, lasted),
    {
        match end {
            CameraEnd::Reload => {
                return CameraStep::Again;
            },
            _ => {},
        }
        if lasted > SUCCESS_AFTER {
            self.backoff = MIN_BACKOFF;
        }
        if self.backoff > MAX_BACKOFF {
            self.backoff = MAX_BACKOFF;
        }
        match end {
            CameraEnd::Shutdown => CameraStep::Finish,
            CameraEnd::LoginFailed => CameraStep::GiveUp,
            _ => {
                let wait: u64 = self.backoff;
                self.backoff = 2 * wait;
                CameraStep::Wait(wait)
            },
        }
    }
}

/// Where a run stands after connections were lost `n` times in a row, none of
/// which lasted.
pub open spec fn nth_backoff(n: nat) -> int
    decreases n,
{
    if n == 0 {
        MIN_BACKOFF as int
    } else {
        2 * wait_now(nth_backoff((n - 1) as nat) as u64, 0)
    }
}

/// The waits between connections that do not last grow, and stay within their
/// bounds.
pub proof fn law_waits_grow_within_bounds(n: nat)
    ensures
        MIN_BACKOFF <= nth_backoff(n) <= 2 * MAX_BACKOFF,
        MIN_BACKOFF <= wait_now(nth_backoff(n) as u64, 0) <= wait_now(
            nth_backoff(n + 1) as u64,
            0,
        ) <= MAX_BACKOFF,
    decreases n,
{
    if n > 0 {
        law_waits_grow_within_bounds((n - 1) as nat);
    }
}

/// Whether a camera's clock is to be set: if it has none, or if it is meant to
/// be.
pub fn update_camera_time(is_set: bool, update_time: bool) -> (update: bool)
    ensures
        update == (!is_set || update_time),
{
    !is_set || update_time
}

/// A camera that answers has missed nothing. One that does not is given five more tries,
/// and is dead at the sixth. One that cannot be pinged is left alone, and a failure is the
/// end at once.
pub proof fn law_a_camera_gets_five_strikes(pings: Pings, started: u64, now: u64)
    ensures
        noticed(pings, Ping::Answered, started, now).0 == (Pings { last_recv: now, missed: 0 }),
        noticed(pings, Ping::Answered, started, now).1 is Stable,
        pings.missed < 5 ==> noticed(pings, Ping::TimedOut, started, now) == (
            Pings { last_recv: pings.last_recv, missed: (pings.missed + 1) as u32 },
            PingStep::Missed,
        ),
        pings.missed >= 5 ==> noticed(pings, Ping::TimedOut, started, now).1 is Dead,
        noticed(pings, Ping::Unsupported, started, now) == (pings, PingStep::Silent),
        noticed(pings, Ping::Failed, started, now).1 is Broken,
        noticed(pings, Ping::Failed, started, now).0 == pings,
{
}

/// How long a camera was silent is told in whole seconds from its last answer to the ping.
pub proof fn law_silence_is_told_in_seconds(pings: Pings, started: u64, now: u64)
    ensures
        started >= pings.last_recv ==> noticed(pings, Ping::Failed, started, now).1
            == PingStep::Broken(((started - pings.last_recv) / 1_000) as u64),
        started < pings.last_recv ==> noticed(pings, Ping::Failed, started, now).1
            == PingStep::Broken(0),
        started >= pings.last_recv ==> noticed(pings, Ping::Answered, started, now).1
            == PingStep::Stable(((started - pings.last_recv) / 1_000) as u64),
        started >= pings.last_recv && pings.missed >= 5 ==> noticed(
            pings,
            Ping::TimedOut,
            started,
            now,
        ).1 == PingStep::Dead(((started - pings.last_recv) / 1_000) as u64),
{
}

/// A camera that is lost is tried again, after twice the time each time, up to five
/// seconds, and after 50 milliseconds where it had been there for more than a minute. A
/// new configuration is taken up at once, a shutdown ends it, and so does a login that
/// failed.
pub proof fn law_lost_cameras_are_tried_again(run: CameraRun, lasted: u64)
    requires
        run.wf(),
    ensures
        ended_as(run, CameraEnd::Reload, lasted) == (run, CameraStep::Again),
        ended_as(run, CameraEnd::Shutdown, lasted).1 == CameraStep::Finish,
        ended_as(run, CameraEnd::LoginFailed, lasted).1 == CameraStep::GiveUp,
        lasted > 60_000 ==> ended_as(run, CameraEnd::Lost, lasted) == (
            CameraRun { backoff: 100 },
            CameraStep::Wait(50),
        ),
        lasted <= 60_000 && run.backoff <= 5_000 ==> ended_as(run, CameraEnd::Lost, lasted) == (
            CameraRun { backoff: (2 * run.backoff) as u64 },
            CameraStep::Wait(run.backoff),
        ),
        lasted <= 60_000 && run.backoff > 5_000 ==> ended_as(run, CameraEnd::Lost, lasted) == (
            CameraRun { backoff: 10_000 },
            CameraStep::Wait(5_000),
        ),
{
}

} // verus!
