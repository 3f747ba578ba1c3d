//! Errors of ingress processing.

use vstd::prelude::*;

use crate::common::http_error::{ErrorResponse, ErrorResponseView};
use crate::executor::error;
use crate::executor::error::ExecutorError;

verus! {

/// Errors for ingress AI routing processing operations.
#[derive(Debug)]
pub enum IngressError {
    /// Invalid client request (400 Bad Request).
    InvalidRequest(String),
    /// Missing authentication (401 Unauthorized).
    AuthenticationRequired,
    /// Insufficient permissions (403 Forbidden).
    AuthorizationFailed,
    /// Configured route lookup failed (500 Internal Server Error).
    RequestOrchestrationFailed,
    /// LLM execution failed (wraps ExecutorError).
    ExecutionFailed(ExecutorError),
}

/// What a request that failed with `error` is answered with.
pub open spec fn response_of(error: IngressError) -> ErrorResponseView {
    match error {
        IngressError::InvalidRequest(message) => ErrorResponseView {
            status: 400,
            code: "INVALID_REQUEST"@,
            message: message@,
        },
        IngressError::AuthenticationRequired => ErrorResponseView {
            status: 401,
            code: "AUTHENTICATION_REQUIRED"@,
            message: "Authentication is required to access this resource."@,
        },
        IngressError::AuthorizationFailed => ErrorResponseView {
            status: 403,
            code: "AUTHORIZATION_FAILED"@,
            message: "You do not have permission to perform this operation."@,
        },
        IngressError::RequestOrchestrationFailed => ErrorResponseView {
            status: 500,
            code: "REQUEST_ORCHESTRATION_FAILED"@,
            message: "An internal error occurred while processing your request."@,
        },
        IngressError::ExecutionFailed(error) => error::response_of(error),
    }
}

impl IngressError {
    /// Maps the error to a status, a stable code and a client-safe message.
    pub fn into_response(self) -> (response: ErrorResponse)
        ensures
            response@ == response_of(self),
    {
        match self {
            IngressError::InvalidRequest(message) => ErrorResponse {
                status: 400,
                code: "INVALID_REQUEST",
                message,
            },
            IngressError::AuthenticationRequired => ErrorResponse {
                status: 401,
                code: "AUTHENTICATION_REQUIRED",
                message: "Authentication is required to access this resource.".to_owned(),
            },
            IngressError::AuthorizationFailed => ErrorResponse {
                status: 403,
                code: "AUTHORIZATION_FAILED",
                message: "You do not have permission to perform this operation.".to_owned(),
            },
            IngressError::RequestOrchestrationFailed => ErrorResponse {
                status: 500,
                code: "REQUEST_ORCHESTRATION_FAILED",
                message: "An internal error occurred while processing your request.".to_owned(),
            },
            IngressError::ExecutionFailed(error) => error.into_response(),
        }
    }
}

} // verus!
