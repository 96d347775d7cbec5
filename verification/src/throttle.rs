//! Pacing of outgoing queries.
//!
//! A session may be woken many times in quick succession. The throttle sees to
//! it that the network gets no two queries closer together than a minimum
//! interval, however often a send is attempted. It is the reactive kind: it
//! looks at the time since the last query, so after a long silence the next
//! attempt is let through at once, not at the next multiple of the interval.
//!
//! Times are milliseconds on a clock of the caller's choosing.

use vstd::prelude::*;

verus! {

/// Whether a query has gone out yet, and when the last one did.
#[derive(Clone, Copy, Debug, PartialEq, Eq, Structural)]
pub enum ThrottleState {
    /// No query has been sent.
    Idle,
    /// The last query was sent at `last_sent_at`.
    Active { last_sent_at: u64 },
}

/// The pacing of one session's queries.
#[derive(Clone, Copy, Debug, PartialEq, Eq, Structural)]
pub struct Throttle {
    /// The least time between two queries.
    pub minimum_interval: u64,
    pub state: ThrottleState,
}

impl Throttle {
    /// A throttle that has seen no query yet.
    pub open spec fn new_spec(minimum_interval: u64) -> Throttle {
        Throttle { minimum_interval, state: ThrottleState::Idle }
    }

    /// Whether a query may go out at `now`: always before the first one, and
    /// after that once `minimum_interval` has passed since the last.
    pub open spec fn allows(self, now: u64) -> bool {
        match self.state {
            ThrottleState::Idle => true,
            ThrottleState::Active { last_sent_at } => now - last_sent_at >= self.minimum_interval,
        }
    }

    /// The throttle after a query went out at `now`.
    pub open spec fn marked(self, now: u64) -> Throttle {
        Throttle {
            minimum_interval: self.minimum_interval,
            state: ThrottleState::Active { last_sent_at: now },
        }
    }

    /// The throttle after an attempt to send at `now`.
    pub open spec fn attempted(self, now: u64) -> Throttle {
        if self.allows(now) {
            self.marked(now)
        } else {
            self
        }
    }

    /// The throttle after an attempt at each of `times`, in their order.
    pub open spec fn after(self, times: Seq<u64>) -> Throttle
        decreases times.len(),
    {
        if times.len() == 0 {
            self
        } else {
            self.after(times.drop_last()).attempted(times.last())
        }
    }

    /// Whether, of the attempts at `times`, the one at place `k` sends.
    pub open spec fn sends(self, times: Seq<u64>, k: int) -> bool
        recommends
            0 <= k < times.len(),
    {
        self.after(times.take(k)).allows(times[k])
    }

    /// The earliest time from which a query may go out: any time before the
    /// first query; after that the time of the last query plus
    /// `minimum_interval`, or the end of the clock where that lies beyond it.
    pub open spec fn opens_at(self) -> u64 {
        match self.state {
            ThrottleState::Idle => 0,
            ThrottleState::Active { last_sent_at } => if last_sent_at + self.minimum_interval
                <= u64::MAX {
                (last_sent_at + self.minimum_interval) as u64
            } else {
                u64::MAX
            },
        }
    }

    /// A throttle that has seen no query yet.
    pub fn new(minimum_interval: u64) -> (throttle: Throttle)
        ensures
            throttle == Throttle::new_spec(minimum_interval),
    {
        Throttle { minimum_interval, state: ThrottleState::Idle }
    }

    /// Whether a query may go out at `now`.
    pub fn permits(&self, now: u64) -> (allowed: bool)
        ensures
            allowed == self.allows(now),
    {
        match self.state {
            ThrottleState::Idle => true,
            ThrottleState::Active { last_sent_at } => now >= last_sent_at && now - last_sent_at
                >= self.minimum_interval,
        }
    }

    /// Records that a query went out at `now`.
    pub fn mark_sent(&mut self, now: u64)
        ensures
            *final(self) == old(self).marked(now),
    {
        self.state = ThrottleState::Active { last_sent_at: now };
    }

    /// Attempts to send at `now`: where the throttle permits it, records the
    /// query and returns `true`; else changes nothing and returns `false`.
    pub fn attempt(&mut self, now: u64) -> (sent: bool)
        ensures
            sent == old(self).allows(now),
            *final(self) == old(self).attempted(now),
    {
        if self.permits(now) {
            self.mark_sent(now);
            true
        } else {
            false
        }
    }

    /// The earliest time from which a query may go out.
    pub fn next_permitted_at(&self) -> (at: u64)
        ensures
            at == self.opens_at(),
    {
        match self.state {
            ThrottleState::Idle => 0,
            ThrottleState::Active { last_sent_at } => last_sent_at.saturating_add(
                self.minimum_interval,
            ),
        }
    }
}

/// Once an attempt at `times[i]` has sent, the last query that the throttle
/// remembers after any longer run of attempts is that one or a later one at
/// least `minimum_interval` after it.
proof fn remembers_no_sooner(throttle: Throttle, times: Seq<u64>, i: int, m: int)
    requires
        0 <= i < m <= times.len(),
        throttle.sends(times, i),
    ensures
        throttle.after(times.take(m)).minimum_interval == throttle.minimum_interval,
        throttle.after(times.take(m)).state matches ThrottleState::Active { last_sent_at }
            && (last_sent_at == times[i] || last_sent_at - times[i] >= throttle.minimum_interval),
    decreases m,
{
    assert(times.take(m).drop_last() =~= times.take(m - 1));
    assert(times.take(m).last() == times[m - 1]);
    if m == i + 1 {
        keeps_interval(throttle, times.take(i));
    } else {
        remembers_no_sooner(throttle, times, i, m - 1);
    }
}

/// No attempt changes the minimum interval.
proof fn keeps_interval(throttle: Throttle, times: Seq<u64>)
    ensures
        throttle.after(times).minimum_interval == throttle.minimum_interval,
    decreases times.len(),
{
    if times.len() > 0 {
        keeps_interval(throttle, times.drop_last());
    }
}

/// Whatever the attempts and their times, no two that send are closer
/// together than the minimum interval.
pub proof fn sends_keep_their_distance(throttle: Throttle, times: Seq<u64>, i: int, j: int)
    requires
        0 <= i < j < times.len(),
        throttle.sends(times, i),
        throttle.sends(times, j),
    ensures
        times[j] - times[i] >= throttle.minimum_interval,
{
    remembers_no_sooner(throttle, times, i, j);
}

} // verus!
