//! Concurrent generation admission.

use vstd::prelude::*;

use crate::common::http_error::{ErrorResponse, ErrorResponseView};

verus! {

/// Why a generation may not start.
#[derive(Clone, Copy, PartialEq, Eq, Structural, Debug)]
pub enum AdmissionError {
    /// Every slot is taken.
    Overloaded,
    /// The process takes no new work.
    Draining,
}

/// A bounded number of generation slots. Callers never queue.
#[derive(Debug)]
pub struct AdmissionLimiter {
    capacity: u32,
    active: u32,
    draining: bool,
}

/// The contents of a limiter.
#[verifier::ext_equal]
pub struct AdmissionView {
    pub capacity: nat,
    pub active: nat,
    pub draining: bool,
}

impl View for AdmissionLimiter {
    type V = AdmissionView;

    closed spec fn view(&self) -> AdmissionView {
        AdmissionView {
            capacity: self.capacity as nat,
            active: self.active as nat,
            draining: self.draining,
        }
    }
}

impl AdmissionLimiter {
    #[verifier::type_invariant]
    spec fn within_capacity(self) -> bool {
        self.active <= self.capacity
    }

    /// A limiter with all its slots free.
    pub fn new(capacity: u32) -> (limiter: AdmissionLimiter)
        ensures
            limiter@ == (AdmissionView { capacity: capacity as nat, active: 0, draining: false }),
    {
        AdmissionLimiter { capacity, active: 0, draining: false }
    }

    /// Takes a slot.
    ///
    /// # Errors
    /// `Draining` once draining has begun, else `Overloaded` when no slot is free.
    pub fn try_acquire(&mut self) -> (verdict: Result<(), AdmissionError>)
        ensures
            final(self)@.active <= final(self)@.capacity,
            if old(self)@.draining {
                verdict == Err::<(), AdmissionError>(AdmissionError::Draining) && final(self)@
                    == old(self)@
            } else if old(self)@.active == old(self)@.capacity {
                verdict == Err::<(), AdmissionError>(AdmissionError::Overloaded) && final(self)@
                    == old(self)@
            } else {
                verdict is Ok && final(self)@ == (AdmissionView {
                    active: old(self)@.active + 1,
                    ..old(self)@
                })
            },
    {
        proof {
            use_type_invariant(&*self);
        }
        if self.draining {
            return Err(AdmissionError::Draining);
        }
        if self.active >= self.capacity {
            return Err(AdmissionError::Overloaded);
        }
        self.active = self.active + 1;
        Ok(())
    }

    /// Gives a slot back. With no slot taken, nothing changes.
    pub fn release(&mut self)
        ensures
            final(self)@ == (AdmissionView {
                active: if old(self)@.active > 0 {
                    (old(self)@.active - 1) as nat
                } else {
                    0
                },
                ..old(self)@
            }),
    {
        proof {
            use_type_invariant(&*self);
        }
        if self.active > 0 {
            self.active = self.active - 1;
        }
    }

    /// Takes no new work from here on. Slots already taken stay taken.
    pub fn begin_drain(&mut self)
        ensures
            final(self)@ == (AdmissionView { draining: true, ..old(self)@ }),
    {
        proof {
            use_type_invariant(&*self);
        }
        self.draining = true;
    }

    /// Whether the process takes no new work.
    pub fn is_draining(&self) -> (draining: bool)
        ensures
            draining == self@.draining,
    {
        self.draining
    }
}

/// What a refused generation is answered with.
pub open spec fn response_of(error: AdmissionError) -> ErrorResponseView {
    match error {
        AdmissionError::Overloaded => ErrorResponseView {
            status: 429,
            code: "OVERLOADED"@,
            message: "Too many concurrent generations"@,
        },
        AdmissionError::Draining => ErrorResponseView {
            status: 503,
            code: "DRAINING"@,
            message: "The service is shutting down"@,
        },
    }
}

impl AdmissionError {
    /// Maps the error to a status, a stable code and a client-safe message.
    pub fn into_response(self) -> (response: ErrorResponse)
        ensures
            response@ == response_of(self),
    {
        match self {
            AdmissionError::Overloaded => ErrorResponse {
                status: 429,
                code: "OVERLOADED",
                message: "Too many concurrent generations".to_owned(),
            },
            AdmissionError::Draining => ErrorResponse {
                status: 503,
                code: "DRAINING",
                message: "The service is shutting down".to_owned(),
            },
        }
    }

    /// Seconds for the `Retry-After` header of the answer.
    pub fn retry_after_secs(self) -> (secs: Option<u64>)
        ensures
            secs == (match self {
                AdmissionError::Overloaded => Some(1u64),
                AdmissionError::Draining => None,
            }),
    {
        match self {
            AdmissionError::Overloaded => Some(1),
            AdmissionError::Draining => None,
        }
    }
}

} // verus!
