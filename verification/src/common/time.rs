//! Spans, monotonic readings and wall-clock readings as plain integers.
//!
//! Nothing here reads a clock: readings are handed in by the caller, so every
//! decision that depends on time is a function of its arguments.

use vstd::prelude::*;

verus! {

/// Nanoseconds in one millisecond.
pub const NANOS_PER_MILLI: u128 = 1_000_000;

/// Nanoseconds in one second.
pub const NANOS_PER_SEC: u128 = 1_000_000_000;

/// A span of time in nanoseconds.
#[derive(Clone, Copy, PartialEq, Eq, Structural, Debug)]
pub struct Duration {
    pub nanos: u128,
}

/// A monotonic reading: nanoseconds since an origin fixed for the process.
#[derive(Clone, Copy, PartialEq, Eq, Structural, Debug)]
pub struct Instant {
    pub nanos: u128,
}

/// A wall-clock reading: seconds since the Unix epoch plus nanoseconds.
///
/// `nanos` may reach past one second when a leap second is represented.
#[derive(Clone, Copy, PartialEq, Eq, Structural, Debug)]
pub struct SystemTime {
    pub secs: i64,
    pub nanos: u32,
}

/// The smaller of `value` and the largest `u64`.
pub open spec fn clip_u64(value: nat) -> u64 {
    if value <= u64::MAX {
        value as u64
    } else {
        u64::MAX
    }
}

impl Duration {
    /// The empty span.
    pub fn zero() -> (span: Duration)
        ensures
            span.nanos == 0,
    {
        Duration { nanos: 0 }
    }

    /// Whole milliseconds in the span, rounded down.
    pub open spec fn millis(self) -> nat {
        self.nanos as nat / NANOS_PER_MILLI as nat
    }

    /// A span of `millis` milliseconds.
    pub fn from_millis(millis: u64) -> (span: Duration)
        ensures
            span.nanos == millis * NANOS_PER_MILLI,
    {
        Duration { nanos: millis as u128 * NANOS_PER_MILLI }
    }

    /// A span of `secs` seconds.
    pub fn from_secs(secs: u64) -> (span: Duration)
        ensures
            span.nanos == secs * NANOS_PER_SEC,
    {
        Duration { nanos: secs as u128 * NANOS_PER_SEC }
    }

    /// True for the empty span.
    pub fn is_zero(&self) -> (zero: bool)
        ensures
            zero == (self.nanos == 0),
    {
        self.nanos == 0
    }

    /// Whole milliseconds in the span, rounded down.
    pub fn as_millis(&self) -> (millis: u128)
        ensures
            millis == self.millis(),
    {
        self.nanos / NANOS_PER_MILLI
    }
}

/// Whole milliseconds of `duration`, clipped to what a `u64` can hold.
pub fn duration_ms(duration: Duration) -> (millis: u64)
    ensures
        millis == clip_u64(duration.millis()),
{
    let millis: u128 = duration.as_millis();
    if millis <= u64::MAX as u128 {
        millis as u64
    } else {
        u64::MAX
    }
}

impl Instant {
    /// The reading `span` after this one, clipped at the last reading that can
    /// be represented.
    pub open spec fn spec_plus(self, span: Duration) -> Instant {
        if self.nanos + span.nanos <= u128::MAX {
            Instant { nanos: (self.nanos + span.nanos) as u128 }
        } else {
            Instant { nanos: u128::MAX }
        }
    }

    /// Time from `earlier` to this reading; empty when `earlier` is not earlier.
    pub open spec fn spec_since(self, earlier: Instant) -> Duration {
        if earlier.nanos <= self.nanos {
            Duration { nanos: (self.nanos - earlier.nanos) as u128 }
        } else {
            Duration { nanos: 0 }
        }
    }

    /// The reading `span` after this one, clipped at the last reading that can
    /// be represented.
    pub fn plus(self, span: Duration) -> (later: Instant)
        ensures
            later == self.spec_plus(span),
    {
        match self.nanos.checked_add(span.nanos) {
            Some(nanos) => Instant { nanos },
            None => Instant { nanos: u128::MAX },
        }
    }

    /// Time from `earlier` to this reading; empty when `earlier` is not earlier.
    pub fn since(self, earlier: Instant) -> (span: Duration)
        ensures
            span == self.spec_since(earlier),
    {
        if earlier.nanos <= self.nanos {
            Duration { nanos: self.nanos - earlier.nanos }
        } else {
            Duration { nanos: 0 }
        }
    }
}

impl SystemTime {
    /// Nanoseconds since the Unix epoch.
    pub open spec fn unix_nanos(self) -> int {
        self.secs * NANOS_PER_SEC + self.nanos
    }

    /// The reading `secs` seconds after the Unix epoch.
    pub fn from_unix_secs(secs: i64) -> (reading: SystemTime)
        ensures
            reading.unix_nanos() == secs * NANOS_PER_SEC,
    {
        SystemTime { secs, nanos: 0 }
    }

    /// Time from `now` to this reading; empty when this reading has passed.
    pub fn until_from(self, now: SystemTime) -> (span: Duration)
        ensures
            span.nanos == (if self.unix_nanos() >= now.unix_nanos() {
                self.unix_nanos() - now.unix_nanos()
            } else {
                0
            }),
    {
        let target: i128 = self.secs as i128 * 1_000_000_000 + self.nanos as i128;
        let reading: i128 = now.secs as i128 * 1_000_000_000 + now.nanos as i128;
        if target >= reading {
            Duration { nanos: (target - reading) as u128 }
        } else {
            Duration { nanos: 0 }
        }
    }
}

} // verus!
