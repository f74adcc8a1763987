//! The timer that tracks time against one issue.
//!
//! The timer is either idle or running for exactly one issue. It stores when
//! it was started and computes the elapsed time from the clock on every read.

use crate::text::clone_text_option;
use vstd::prelude::*;

verus! {

/// A snapshot of the timer.
#[derive(Debug)]
pub struct TimerState {
    pub active: bool,
    pub issue_key: Option<String>,
    pub issue_summary: Option<String>,
    pub start_time: Option<u64>,
    pub elapsed: u64,
}

/// The timer: its stored state and the time of the last notification.
#[derive(Debug)]
pub struct Timer {
    state: TimerState,
    last_notification_at: Option<u64>,
}

/// Seconds from `start` to `now`; zero where the clock reads earlier than the
/// start.
pub open spec fn elapsed_between(start: u64, now: u64) -> u64 {
    if now >= start {
        (now - start) as u64
    } else {
        0
    }
}

impl TimerState {
    /// Whether the state is the idle one: nothing tracked, nothing elapsed.
    pub open spec fn is_idle(self) -> bool {
        &&& !self.active
        &&& self.issue_key is None
        &&& self.issue_summary is None
        &&& self.start_time is None
        &&& self.elapsed == 0
    }

    /// Whether the state is a stored running one: a key, a start time, and no
    /// elapsed time stored.
    pub open spec fn is_running(self) -> bool {
        &&& self.active
        &&& self.issue_key is Some
        &&& self.start_time is Some
        &&& self.elapsed == 0
    }

    /// The state as it reads at `now`: a running state with the elapsed time
    /// filled in, an idle state as it is.
    pub open spec fn read_at(self, now: u64) -> TimerState {
        if self.active {
            TimerState {
                elapsed: elapsed_between(
                    match self.start_time {
                        Some(start) => start,
                        None => now,
                    },
                    now,
                ),
                ..self
            }
        } else {
            self
        }
    }

    /// A copy of the snapshot.
    pub fn duplicate(&self) -> (copy: Self)
        ensures
            copy == *self,
    {
        TimerState {
            active: self.active,
            issue_key: clone_text_option(&self.issue_key),
            issue_summary: clone_text_option(&self.issue_summary),
            start_time: self.start_time,
            elapsed: self.elapsed,
        }
    }
}

/// Reads the system clock with `SystemTime::now` and gives the whole seconds
/// since the Unix epoch, or zero where the clock reads earlier than the
/// epoch. Nothing is promised of the value.
#[verifier::external_body]
fn clock_secs() -> u64 {
    std::time::SystemTime::now().duration_since(std::time::UNIX_EPOCH).map(|d| d.as_secs()).unwrap_or(
        0,
    )
}

impl Timer {
    #[verifier::type_invariant]
    spec fn well_formed(self) -> bool {
        &&& self.state.active ==> self.state.is_running()
        &&& !self.state.active ==> self.state.is_idle() && self.last_notification_at is None
    }

    /// The stored state.
    pub closed spec fn state(self) -> TimerState {
        self.state
    }

    /// The time of the last notification, or of the start where none was
    /// given yet; nothing while idle.
    pub closed spec fn baseline(self) -> Option<u64> {
        self.last_notification_at
    }

    /// Whether the timer is idle with no notification baseline.
    pub open spec fn is_idle(self) -> bool {
        self.state().is_idle() && self.baseline() is None
    }

    /// Whether the timer runs for `key` with `summary` since `start`, with
    /// the notification baseline at `baseline`.
    pub open spec fn runs(
        self,
        key: String,
        summary: Option<String>,
        start: u64,
        baseline: u64,
    ) -> bool {
        &&& self.state().active
        &&& self.state().issue_key == Some(key)
        &&& self.state().issue_summary == summary
        &&& self.state().start_time == Some(start)
        &&& self.state().elapsed == 0
        &&& self.baseline() == Some(baseline)
    }

    /// Whether a notification is due at `now` for the given interval: the
    /// timer runs, the interval is not zero, and at least the interval has
    /// passed since the baseline.
    pub open spec fn notification_due(self, interval_secs: u64, now: u64) -> bool {
        &&& interval_secs != 0
        &&& self.state().active
        &&& self.state().start_time matches Some(start)
        &&& elapsed_between(
            match self.baseline() {
                Some(last) => last,
                None => start,
            },
            now,
        ) >= interval_secs
    }

    /// The idle timer.
    pub closed spec fn idle() -> Timer {
        Timer {
            state: TimerState {
                active: false,
                issue_key: None,
                issue_summary: None,
                start_time: None,
                elapsed: 0,
            },
            last_notification_at: None,
        }
    }

    /// The timer after one `stop`: a running timer becomes the idle one, a
    /// timer that does not run stays as it is.
    pub closed spec fn after_stop(self) -> Timer {
        if self.state.active {
            Timer::idle()
        } else {
            self
        }
    }

    /// What one `stop` at `now` returns: the seconds since the start and the
    /// key of a running timer, `(0, None)` of one that does not run.
    pub open spec fn stop_result(self, now: u64) -> (u64, Option<String>) {
        if self.state().active {
            (
                elapsed_between(
                    match self.state().start_time {
                        Some(start) => start,
                        None => now,
                    },
                    now,
                ),
                self.state().issue_key,
            )
        } else {
            (0u64, None::<String>)
        }
    }

    /// The timer after `count` calls of `stop` in a row.
    pub open spec fn after_stops(self, count: nat) -> Timer
        decreases count,
    {
        if count == 0 {
            self
        } else {
            self.after_stop().after_stops((count - 1) as nat)
        }
    }

    /// An idle timer.
    pub fn new() -> (timer: Self)
        ensures
            timer.is_idle(),
    {
        Timer {
            state: TimerState {
                active: false,
                issue_key: None,
                issue_summary: None,
                start_time: None,
                elapsed: 0,
            },
            last_notification_at: None,
        }
    }

    /// The current time in whole seconds since the Unix epoch.
    pub fn now_secs() -> u64 {
        clock_secs()
    }

    /// Starts tracking `issue_key` at `now`, whatever the timer did before:
    /// the start time and the notification baseline are both `now`.
    pub fn start_at(&mut self, now: u64, issue_key: String, issue_summary: Option<String>)
        ensures
            final(self).runs(issue_key, issue_summary, now, now),
    {
        *self = Timer {
            state: TimerState {
                active: true,
                issue_key: Some(issue_key),
                issue_summary,
                start_time: Some(now),
                elapsed: 0,
            },
            last_notification_at: Some(now),
        };
    }

    /// Starts tracking `issue_key` at the time the clock gives.
    pub fn start(&mut self, issue_key: String, issue_summary: Option<String>)
        ensures
            exists|now: u64| final(self).runs(issue_key, issue_summary, now, now),
    {
        let now = Self::now_secs();
        self.start_at(now, issue_key, issue_summary);
        assert(self.runs(issue_key, issue_summary, now, now));
    }

    /// Stops the timer at `now`. A running timer becomes idle and gives the
    /// seconds since its start and the key it tracked; an idle timer stays as
    /// it is and gives `(0, None)`.
    pub fn stop_at(&mut self, now: u64) -> (result: (u64, Option<String>))
        ensures
            *final(self) == old(self).after_stop(),
            result == old(self).stop_result(now),
            final(self).is_idle(),
            !old(self).state().active ==> result == (0u64, None::<String>) && *final(self) == *old(
                self,
            ),
    {
        proof {
            use_type_invariant(&*self);
        }
        if !self.state.active {
            return (0, None);
        }
        let start: u64 = match self.state.start_time {
            Some(start) => start,
            None => now,
        };
        let elapsed: u64 = if now >= start {
            now - start
        } else {
            0
        };
        let key = clone_text_option(&self.state.issue_key);
        *self = Timer {
            state: TimerState {
                active: false,
                issue_key: None,
                issue_summary: None,
                start_time: None,
                elapsed: 0,
            },
            last_notification_at: None,
        };
        (elapsed, key)
    }

    /// Stops the timer at the time the clock gives.
    pub fn stop(&mut self) -> (result: (u64, Option<String>))
        ensures
            *final(self) == old(self).after_stop(),
            exists|now: u64| result == old(self).stop_result(now),
            final(self).is_idle(),
            !old(self).state().active ==> result == (0u64, None::<String>) && *final(self) == *old(
                self,
            ),
    {
        proof {
            use_type_invariant(&*self);
        }
        if !self.state.active {
            assert(self.stop_result(0) == (0u64, None::<String>));
            return (0, None);
        }
        let now = Self::now_secs();
        let result = self.stop_at(now);
        assert(result == old(self).stop_result(now));
        result
    }

    /// The state as it reads at `now`. The timer is not changed. An inactive
    /// snapshot holds no key, no start time and no elapsed time; an active one
    /// holds a key and a start time.
    pub fn state_at(&self, now: u64) -> (snapshot: TimerState)
        ensures
            snapshot == self.state().read_at(now),
            !snapshot.active ==> snapshot.is_idle(),
            snapshot.active ==> snapshot.issue_key is Some && snapshot.start_time is Some,
    {
        proof {
            use_type_invariant(self);
        }
        let mut snapshot = self.state.duplicate();
        if snapshot.active {
            let start: u64 = match snapshot.start_time {
                Some(start) => start,
                None => now,
            };
            snapshot.elapsed = if now >= start {
                now - start
            } else {
                0
            };
        }
        snapshot
    }

    /// The state as it reads at the time the clock gives.
    pub fn get_state(&self) -> (snapshot: TimerState)
        ensures
            exists|now: u64| snapshot == self.state().read_at(now),
            !self.state().active ==> snapshot == self.state(),
            !snapshot.active ==> snapshot.is_idle(),
            snapshot.active ==> snapshot.issue_key is Some && snapshot.start_time is Some,
    {
        let now = Self::now_secs();
        let snapshot = self.state_at(now);
        assert(snapshot == self.state().read_at(now));
        snapshot
    }

    /// Tells whether a notification is due at `now`. Where one is due, the
    /// baseline moves to `now` and the state as it reads at `now` is
    /// returned; else nothing is returned and the timer stays as it is. The
    /// stored state never changes.
    pub fn check_notification_due_at(&mut self, interval_secs: u64, now: u64) -> (due: Option<
        TimerState,
    >)
        ensures
            final(self).state() == old(self).state(),
            old(self).notification_due(interval_secs, now) ==> due == Some(
                old(self).state().read_at(now),
            ) && final(self).baseline() == Some(now),
            !old(self).notification_due(interval_secs, now) ==> due is None && *final(self) == *old(
                self,
            ),
    {
        proof {
            use_type_invariant(&*self);
        }
        if interval_secs == 0 {
            return None;
        }
        if !self.state.active {
            return None;
        }
        let start: u64 = match self.state.start_time {
            Some(start) => start,
            None => now,
        };
        let last_time: u64 = match self.last_notification_at {
            Some(last) => last,
            None => start,
        };
        let since: u64 = if now >= last_time {
            now - last_time
        } else {
            0
        };
        if since < interval_secs {
            return None;
        }
        let snapshot = self.state_at(now);
        self.last_notification_at = Some(now);
        Some(snapshot)
    }

    /// Tells whether a notification is due at the time the clock gives.
    pub fn check_notification_due(&mut self, interval_secs: u64) -> (due: Option<TimerState>)
        ensures
            final(self).state() == old(self).state(),
            (interval_secs == 0 || !old(self).state().active) ==> due is None && *final(self)
                == *old(self),
            due is None ==> *final(self) == *old(self),
            due matches Some(snapshot) ==> exists|now: u64|
                old(self).notification_due(interval_secs, now) && snapshot == old(
                    self,
                ).state().read_at(now) && final(self).baseline() == Some(now),
    {
        proof {
            use_type_invariant(&*self);
        }
        if interval_secs == 0 || !self.state.active {
            return None;
        }
        let now = Self::now_secs();
        let due = self.check_notification_due_at(interval_secs, now);
        proof {
            if due is Some {
                assert(old(self).notification_due(interval_secs, now));
            }
        }
        due
    }
}

/// Stopping a timer that does not run any number of times changes nothing,
/// and every one of the calls returns `(0, None)`, whatever the clock reads.
pub proof fn lemma_stop_idle_is_idempotent(timer: Timer, count: nat, now: u64)
    requires
        !timer.state().active,
    ensures
        timer.after_stop() == timer,
        timer.after_stops(count) == timer,
        timer.after_stops(count).stop_result(now) == (0u64, None::<String>),
    decreases count,
{
    if count > 0 {
        lemma_stop_idle_is_idempotent(timer, (count - 1) as nat, now);
    }
}

/// A second `stop` right after a first changes nothing and returns
/// `(0, None)`, whatever the timer did before the first.
pub proof fn lemma_second_stop_is_noop(timer: Timer, now: u64)
    ensures
        timer.after_stop().after_stop() == timer.after_stop(),
        !timer.after_stop().state().active,
        timer.after_stop().stop_result(now) == (0u64, None::<String>),
{
}

/// While a timer runs, the elapsed time it reads never goes down as the clock
/// goes up.
pub proof fn lemma_elapsed_is_monotonic(timer: Timer, earlier: u64, later: u64)
    requires
        timer.state().active,
        earlier <= later,
    ensures
        timer.state().read_at(earlier).elapsed <= timer.state().read_at(later).elapsed,
{
}

} // verus!
