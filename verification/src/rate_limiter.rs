//! Pacing of outbound requests.
//!
//! The limiter keeps the time of the last dispatch and says how long the next
//! caller has to wait so that two dispatches are at least one cooldown apart.
//! It does not sleep itself: the caller holds the limiter exclusively, asks
//! for the wait, sleeps that long, and then records the dispatch.

use crate::config::Millis;
use vstd::prelude::*;

verus! {

/// The pacing state: the cooldown and the time of the last dispatch, in
/// milliseconds of a monotonic clock.
#[derive(Clone, Copy, Debug)]
pub struct RateLimiter {
    cooldown: Millis,
    last_call: Option<u64>,
}

/// How long a caller who arrives at `now` waits, given the last dispatch.
pub open spec fn wait_of(cooldown: Millis, last_call: Option<u64>, now: u64) -> nat {
    match last_call {
        Some(last) => if now >= last && now - last < cooldown {
            (cooldown - (now - last)) as nat
        } else if now < last {
            cooldown as nat
        } else {
            0
        },
        None => 0,
    }
}

impl RateLimiter {
    /// The configured cooldown.
    pub closed spec fn spec_cooldown(self) -> Millis {
        self.cooldown
    }

    /// The time of the last recorded dispatch.
    pub closed spec fn last_call(self) -> Option<u64> {
        self.last_call
    }

    /// How long a caller who arrives at `now` has to wait.
    pub open spec fn wait_at(self, now: u64) -> nat {
        wait_of(self.spec_cooldown(), self.last_call(), now)
    }

    /// A limiter that has not dispatched anything yet.
    pub fn new(cooldown: Millis) -> (limiter: Self)
        ensures
            limiter.spec_cooldown() == cooldown,
            limiter.last_call() is None,
    {
        RateLimiter { cooldown, last_call: None }
    }

    /// The configured cooldown.
    pub fn cooldown(&self) -> (cooldown: Millis)
        ensures
            cooldown == self.spec_cooldown(),
    {
        self.cooldown
    }

    /// How long the caller has to wait before dispatching, when it arrives at
    /// `now`: nothing before the first dispatch and once a cooldown has
    /// passed, else the rest of the cooldown. A clock that reads earlier than
    /// the last dispatch waits one whole cooldown.
    pub fn wait_before_hit(&self, now: u64) -> (wait: Millis)
        ensures
            wait == self.wait_at(now),
            wait <= self.spec_cooldown(),
    {
        match self.last_call {
            Some(last) => {
                if now < last {
                    self.cooldown
                } else {
                    let elapsed: u64 = now - last;
                    if elapsed < self.cooldown {
                        self.cooldown - elapsed
                    } else {
                        0
                    }
                }
            },
            None => 0,
        }
    }

    /// Records a dispatch at `at`. The cooldown stays as it is.
    pub fn record_hit(&mut self, at: u64)
        ensures
            final(self).last_call() == Some(at),
            final(self).spec_cooldown() == old(self).spec_cooldown(),
    {
        self.last_call = Some(at);
    }
}

/// Two dispatches in a row through one limiter are at least one cooldown
/// apart: if the first was recorded at `first`, and the second caller arrives
/// no earlier, waits as long as the limiter says and dispatches at `second`,
/// then `second - first` is at least the cooldown.
pub proof fn lemma_hits_are_spaced(limiter: RateLimiter, first: u64, arrival: u64, second: u64)
    requires
        limiter.last_call() == Some(first),
        first <= arrival,
        arrival + limiter.wait_at(arrival) <= second,
    ensures
        second - first >= limiter.spec_cooldown(),
{
}

/// A caller never waits where a cooldown has already passed, and the first
/// caller never waits.
pub proof fn lemma_no_wait_after_cooldown(limiter: RateLimiter, now: u64)
    requires
        limiter.last_call() matches Some(last) ==> last + limiter.spec_cooldown() <= now,
    ensures
        limiter.wait_at(now) == 0,
{
}

} // verus!
