//! Errors of health checks.

use vstd::prelude::*;

use crate::common::http_error::{ErrorResponse, ErrorResponseView};

verus! {

/// Why a health check could not be made.
#[derive(Clone, Copy, PartialEq, Eq, Structural, Debug)]
pub enum HealthError {
    /// The system status could not be read.
    SystemStatusCheckFailed,
}

/// What a failed health check is answered with.
pub open spec fn response_of(error: HealthError) -> ErrorResponseView {
    ErrorResponseView {
        status: 503,
        code: "HEALTH_CHECK_FAILED"@,
        message: "Health check failed - service temporarily unavailable."@,
    }
}

impl HealthError {
    /// Maps the error to a status, a stable code and a client-safe message.
    pub fn into_response(self) -> (response: ErrorResponse)
        ensures
            response@ == response_of(self),
    {
        ErrorResponse {
            status: 503,
            code: "HEALTH_CHECK_FAILED",
            message: "Health check failed - service temporarily unavailable.".to_owned(),
        }
    }
}

} // verus!
