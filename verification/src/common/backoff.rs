//! Waiting longer and longer between attempts.

use vstd::prelude::*;

verus! {

/// A delay that doubles with every use, between two bounds.
#[derive(Debug)]
pub struct Backoff {
    /// The first delay, in milliseconds.
    pub min: u64,
    /// The longest delay, in milliseconds.
    pub max: u64,
    /// The delay to use next, in milliseconds.
    pub delay: u64,
}

/// Twice a delay, but no more than the longest one.
pub open spec fn doubled(delay: u64, max: u64) -> u64 {
    if 2 * delay > max {
        max
    } else {
        (2 * delay) as u64
    }
}

/// The delay in front of attempt `n`, counting from zero, when nothing has
/// succeeded in between.
pub open spec fn nth_delay(min: u64, max: u64, n: nat) -> u64
    decreases n,
{
    if n == 0 {
        min
    } else {
        doubled(nth_delay(min, max, (n - 1) as nat), max)
    }
}

impl Backoff {
    /// What every backoff keeps.
    pub open spec fn wf(&self) -> bool {
        self.min <= self.delay <= self.max
    }

    pub fn new(min: u64, max: u64) -> (backoff: Self)
        requires
            min <= max,
        ensures
            backoff.wf(),
            backoff.min == min,
            backoff.max == max,
            backoff.delay == min,
    {
        Backoff { min, max, delay: min }
    }

    /// The delay to wait now; the next one is twice as long.
    pub fn next(&mut self) -> (delay: u64)
        requires
            old(self).wf(),
        ensures
            final(self).wf(),
            delay == old(self).delay,
            *final(self) == (Backoff {
                delay: doubled(old(self).delay, old(self).max),
                ..*old(self)
            }),
    {
        let delay: u64 = self.delay;
        self.delay = if delay > self.max / 2 {
            self.max
        } else {
            delay * 2
        };
        delay
    }

    /// Start over from the first delay.
    pub fn reset(&mut self)
        requires
            old(self).wf(),
        ensures
            final(self).wf(),
            *final(self) == (Backoff { delay: old(self).min, ..*old(self) }),
    {
        self.delay = self.min;
    }
}

/// Delays never shrink from one failure to the next, and stay within their
/// bounds.
pub proof fn law_delays_grow_within_bounds(min: u64, max: u64, n: nat)
    requires
        min <= max,
    ensures
        min <= nth_delay(min, max, n) <= max,
        nth_delay(min, max, n) <= nth_delay(min, max, n + 1),
    decreases n,
{
    if n > 0 {
        law_delays_grow_within_bounds(min, max, (n - 1) as nat);
    }
}

/// A delay doubles until the limit is reached, and stays there.
pub proof fn law_delays_double_up_to_the_limit(min: u64, max: u64, n: nat)
    requires
        min <= max,
    ensures
        nth_delay(min, max, 0) == min,
        2 * nth_delay(min, max, n) <= max ==> nth_delay(min, max, n + 1) == 2 * nth_delay(
            min,
            max,
            n,
        ),
        2 * nth_delay(min, max, n) > max ==> nth_delay(min, max, n + 1) == max,
{
}

} // verus!
