//! Per-attempt cutoff and observed upstream classification.
//!
//! Header-derived throttling is stored before any body refinement so an
//! outer attempt timeout cannot erase Retry-After or typed 429 facts.

use vstd::prelude::*;

use crate::common::time::{Duration, Instant};
use crate::executor::error::ExecutorError;

verus! {

/// Longest time that may be spent on refining a throttled answer.
pub const MAX_REFINEMENT_MS: u64 = 100;

/// Per-attempt cutoff and the last observed classified error.
#[derive(Debug)]
pub struct AttemptContext {
    pub cutoff: Instant,
    pub observed: Option<ExecutorError>,
}

impl AttemptContext {
    /// Creates a context that expires at an absolute reading.
    pub fn new(cutoff: Instant) -> (attempt: AttemptContext)
        ensures
            attempt.cutoff == cutoff,
            attempt.observed is None,
    {
        AttemptContext { cutoff, observed: None }
    }

    /// Creates a context that expires `timeout` after `now`.
    pub fn from_timeout(timeout: Duration, now: Instant) -> (attempt: AttemptContext)
        ensures
            attempt.cutoff == now.spec_plus(timeout),
            attempt.observed is None,
    {
        Self::new(now.plus(timeout))
    }

    /// Absolute attempt cutoff.
    pub fn cutoff(&self) -> (cutoff: Instant)
        ensures
            cutoff == self.cutoff,
    {
        self.cutoff
    }

    /// Remaining time until the attempt cutoff, or zero when elapsed.
    pub fn remaining(&self, now: Instant) -> (left: Duration)
        ensures
            left == self.cutoff.spec_since(now),
    {
        self.cutoff.since(now)
    }

    /// Stores a classified error observed during this attempt, replacing an
    /// earlier one.
    ///
    /// Call this as soon as 429 headers are classified, before any body
    /// refinement.
    pub fn observe(&mut self, error: ExecutorError)
        ensures
            final(self).cutoff == old(self).cutoff,
            final(self).observed == Some(error),
    {
        self.observed = Some(error);
    }

    /// Returns the last observed classified error, if any.
    pub fn observed(&self) -> (error: Option<ExecutorError>)
        ensures
            error == self.observed,
    {
        match &self.observed {
            Some(error) => Some(error.clone()),
            None => None,
        }
    }

    /// Time to wait for a throttled answer's body: half of what is left of the
    /// attempt, and at most [`MAX_REFINEMENT_MS`].
    pub fn refinement_window(&self, now: Instant) -> (window: Duration)
        ensures
            window.nanos == (if self.cutoff.spec_since(now).nanos / 2 <= MAX_REFINEMENT_MS
                * 1_000_000 {
                self.cutoff.spec_since(now).nanos as int / 2
            } else {
                MAX_REFINEMENT_MS * 1_000_000
            }),
    {
        let half: u128 = self.remaining(now).nanos / 2;
        let longest: Duration = Duration::from_millis(MAX_REFINEMENT_MS);
        if half <= longest.nanos {
            Duration { nanos: half }
        } else {
            longest
        }
    }
}

} // verus!
