//! The absolute deadline that one protected request shares across all its work.

use vstd::prelude::*;

use crate::common::time::{Duration, Instant};

verus! {

/// The instant at which a protected request runs out of time.
#[derive(Clone, Copy, PartialEq, Eq, Structural, Debug)]
pub struct RequestDeadline {
    pub at: Instant,
}

impl RequestDeadline {
    /// Whether the deadline has passed at `now`.
    pub open spec fn expired(self, now: Instant) -> bool {
        now.nanos >= self.at.nanos
    }

    /// Time left at `now`; empty once the deadline has passed.
    pub open spec fn time_left(self, now: Instant) -> Duration {
        self.at.spec_since(now)
    }

    /// `max`, or the time left at `now` where that is shorter.
    pub open spec fn capped(self, max: Duration, now: Instant) -> Duration {
        if max.nanos <= self.time_left(now).nanos {
            max
        } else {
            self.time_left(now)
        }
    }

    /// A deadline `timeout` after `now`.
    pub fn from_timeout(timeout: Duration, now: Instant) -> (deadline: RequestDeadline)
        ensures
            deadline.at == now.spec_plus(timeout),
    {
        RequestDeadline { at: now.plus(timeout) }
    }

    /// Whether the deadline has passed at `now`.
    pub fn is_expired(&self, now: Instant) -> (expired: bool)
        ensures
            expired == self.expired(now),
    {
        now.nanos >= self.at.nanos
    }

    /// Time left at `now`; empty once the deadline has passed.
    pub fn remaining(&self, now: Instant) -> (left: Duration)
        ensures
            left == self.time_left(now),
    {
        self.at.since(now)
    }

    /// `max` clipped to the time left at `now`, or `None` once the deadline has
    /// passed.
    pub fn cap(&self, max: Duration, now: Instant) -> (timeout: Option<Duration>)
        ensures
            timeout == (if self.expired(now) {
                None
            } else {
                Some(self.capped(max, now))
            }),
    {
        if self.is_expired(now) {
            return None;
        }
        let left: Duration = self.remaining(now);
        if max.nanos <= left.nanos {
            Some(max)
        } else {
            Some(left)
        }
    }
}

} // verus!
