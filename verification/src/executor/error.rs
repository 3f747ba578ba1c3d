//! Error types for the executor layer.

use vstd::prelude::*;
use vstd::string::*;

use crate::common::http_error::{ErrorResponse, ErrorResponseView};
use crate::common::text;
use crate::common::text::decimal;

verus! {

/// Errors specific to executor operations.
#[derive(Debug)]
pub enum ExecutorError {
    /// Vendor is not supported or not configured.
    UnsupportedVendor(String),
    /// Model is not supported by the vendor: vendor identifier, then model.
    UnsupportedModel(String, String),
    /// Request payload format is invalid.
    InvalidPayload(String),
    /// Provider answered with a server error.
    ApiCallFailed(String),
    /// Provider throttled the account.
    RateLimitExceeded {
        /// Vendor identifier (e.g., "openai")
        vendor: String,
        /// Optional retry-after hint in milliseconds
        retry_after_ms: Option<u64>,
    },
    /// Provider reports that the account's quota is used up.
    QuotaExceeded,
    /// Authentication failed (invalid API key).
    AuthenticationFailed(String),
    /// Permanent upstream HTTP rejection.
    UpstreamRejected,
    /// One attempt ran out of time, in milliseconds.
    TimeoutError(u64),
    /// The shared request deadline elapsed.
    DeadlineExceeded,
    /// Transport failure during an API call.
    NetworkError(String),
    /// Malformed upstream JSON.
    JsonError(String),
    /// No vendors configured.
    NoVendorsConfigured,
    /// Vendor or HTTP client configuration is invalid.
    InvalidConfiguration,
    /// Configured pricing is missing for the selected target.
    MissingPricing,
    /// Provider success payload cannot be used as a valid result.
    InvalidUpstreamResult,
    /// The target's circuit rejects calls.
    CircuitOpen { vendor: String, retry_after_ms: u64 },
}

impl Clone for ExecutorError {
    fn clone(&self) -> (copy: ExecutorError)
        ensures
            copy == *self,
    {
        match self {
            ExecutorError::UnsupportedVendor(vendor) => ExecutorError::UnsupportedVendor(
                vendor.clone(),
            ),
            ExecutorError::UnsupportedModel(vendor, model) => ExecutorError::UnsupportedModel(
                vendor.clone(),
                model.clone(),
            ),
            ExecutorError::InvalidPayload(detail) => ExecutorError::InvalidPayload(detail.clone()),
            ExecutorError::ApiCallFailed(detail) => ExecutorError::ApiCallFailed(detail.clone()),
            ExecutorError::RateLimitExceeded {
                vendor,
                retry_after_ms,
            } => ExecutorError::RateLimitExceeded {
                vendor: vendor.clone(),
                retry_after_ms: *retry_after_ms,
            },
            ExecutorError::QuotaExceeded => ExecutorError::QuotaExceeded,
            ExecutorError::AuthenticationFailed(vendor) => ExecutorError::AuthenticationFailed(
                vendor.clone(),
            ),
            ExecutorError::UpstreamRejected => ExecutorError::UpstreamRejected,
            ExecutorError::TimeoutError(ms) => ExecutorError::TimeoutError(*ms),
            ExecutorError::DeadlineExceeded => ExecutorError::DeadlineExceeded,
            ExecutorError::NetworkError(detail) => ExecutorError::NetworkError(detail.clone()),
            ExecutorError::JsonError(detail) => ExecutorError::JsonError(detail.clone()),
            ExecutorError::NoVendorsConfigured => ExecutorError::NoVendorsConfigured,
            ExecutorError::InvalidConfiguration => ExecutorError::InvalidConfiguration,
            ExecutorError::MissingPricing => ExecutorError::MissingPricing,
            ExecutorError::InvalidUpstreamResult => ExecutorError::InvalidUpstreamResult,
            ExecutorError::CircuitOpen { vendor, retry_after_ms } => ExecutorError::CircuitOpen {
                vendor: vendor.clone(),
                retry_after_ms: *retry_after_ms,
            },
        }
    }
}

/// The answer to an upstream failure whose details stay on the server.
pub open spec fn upstream_error(message: Seq<char>) -> ErrorResponseView {
    ErrorResponseView { status: 502, code: "UPSTREAM_ERROR"@, message }
}

/// What a request that failed with `error` is answered with.
pub open spec fn response_of(error: ExecutorError) -> ErrorResponseView {
    match error {
        ExecutorError::UnsupportedVendor(vendor) => ErrorResponseView {
            status: 400,
            code: "unsupported_vendor"@,
            message: "Vendor '"@ + vendor@ + "' is not supported"@,
        },
        ExecutorError::UnsupportedModel(vendor, model) => ErrorResponseView {
            status: 400,
            code: "unsupported_model"@,
            message: "Model '"@ + model@ + "' is not supported by vendor '"@ + vendor@ + "'"@,
        },
        ExecutorError::InvalidPayload(detail) => ErrorResponseView {
            status: 400,
            code: "invalid_payload"@,
            message: "Invalid request payload: "@ + detail@,
        },
        ExecutorError::RateLimitExceeded { vendor, .. } => ErrorResponseView {
            status: 429,
            code: "UPSTREAM_RATE_LIMIT"@,
            message: "Rate limit exceeded for vendor '"@ + vendor@ + "'"@,
        },
        ExecutorError::CircuitOpen { vendor, retry_after_ms } => ErrorResponseView {
            status: 503,
            code: "CIRCUIT_OPEN"@,
            message: "Vendor '"@ + vendor@ + "' temporarily unavailable, retry after "@
                + text::decimal_text(retry_after_ms as nat) + "ms"@,
        },
        ExecutorError::DeadlineExceeded => ErrorResponseView {
            status: 504,
            code: "DEADLINE_EXCEEDED"@,
            message: "The request deadline was exceeded"@,
        },
        ExecutorError::AuthenticationFailed(_)
        | ExecutorError::QuotaExceeded
        | ExecutorError::UpstreamRejected
        | ExecutorError::NetworkError(_) => upstream_error("Failed to execute LLM request"@),
        ExecutorError::JsonError(_) => upstream_error("An internal error occurred"@),
        ExecutorError::InvalidUpstreamResult => upstream_error(
            "Upstream result could not be used"@,
        ),
        ExecutorError::ApiCallFailed(_) | ExecutorError::TimeoutError(_) => ErrorResponseView {
            status: 500,
            code: "execution_failed"@,
            message: "Failed to execute LLM request"@,
        },
        ExecutorError::NoVendorsConfigured => ErrorResponseView {
            status: 500,
            code: "no_vendors_configured"@,
            message: "No LLM vendors are configured"@,
        },
        ExecutorError::InvalidConfiguration => ErrorResponseView {
            status: 500,
            code: "invalid_configuration"@,
            message: "Executor configuration is invalid"@,
        },
        ExecutorError::MissingPricing => ErrorResponseView {
            status: 500,
            code: "missing_pricing"@,
            message: "Configured pricing is missing for the selected target"@,
        },
    }
}

/// The text that describes `error` in server-side logs.
pub open spec fn description_of(error: ExecutorError) -> Seq<char> {
    match error {
        ExecutorError::UnsupportedVendor(vendor) => "Unsupported vendor: "@ + vendor@,
        ExecutorError::UnsupportedModel(vendor, model) => "Unsupported model '"@ + model@
            + "' for vendor '"@ + vendor@ + "'"@,
        ExecutorError::InvalidPayload(detail) => "Invalid payload format: "@ + detail@,
        ExecutorError::ApiCallFailed(detail) => "API call failed: "@ + detail@,
        ExecutorError::RateLimitExceeded { vendor, .. } => "Rate limit exceeded for vendor '"@
            + vendor@ + "'"@,
        ExecutorError::QuotaExceeded => "Upstream quota exceeded"@,
        ExecutorError::AuthenticationFailed(vendor) => "Authentication failed for vendor '"@
            + vendor@ + "'"@,
        ExecutorError::UpstreamRejected => "Upstream rejected the request"@,
        ExecutorError::TimeoutError(ms) => "Request timeout after "@ + text::decimal_text(
            ms as nat,
        ) + "ms"@,
        ExecutorError::DeadlineExceeded => "Request deadline exceeded"@,
        ExecutorError::NetworkError(detail) => "Network error: "@ + detail@,
        ExecutorError::JsonError(detail) => "JSON parsing error: "@ + detail@,
        ExecutorError::NoVendorsConfigured => "No LLM vendors configured"@,
        ExecutorError::InvalidConfiguration => "Invalid executor configuration"@,
        ExecutorError::MissingPricing => "Missing pricing for the selected target"@,
        ExecutorError::InvalidUpstreamResult => "Invalid upstream result"@,
        ExecutorError::CircuitOpen { vendor, .. } => "Circuit breaker open for vendor '"@ + vendor@
            + "'"@,
    }
}

fn join(a: &str, b: &str, c: &str) -> (text: String)
    ensures
        text@ == a@ + b@ + c@,
{
    let mut text: String = a.to_owned();
    text.append(b);
    text.append(c);
    text
}

impl ExecutorError {
    /// Text for server-side logs.
    pub fn describe(&self) -> (text: String)
        ensures
            text@ == description_of(*self),
    {
        proof {
            reveal_strlit("");
        }
        match self {
            ExecutorError::UnsupportedVendor(vendor) => join(
                "Unsupported vendor: ",
                vendor.as_str(),
                "",
            ),
            ExecutorError::UnsupportedModel(vendor, model) => {
                let mut text: String = join("Unsupported model '", model.as_str(), "' for vendor '");
                text.append(vendor.as_str());
                text.append("'");
                text
            },
            ExecutorError::InvalidPayload(detail) => join(
                "Invalid payload format: ",
                detail.as_str(),
                "",
            ),
            ExecutorError::ApiCallFailed(detail) => join("API call failed: ", detail.as_str(), ""),
            ExecutorError::RateLimitExceeded { vendor, .. } => join(
                "Rate limit exceeded for vendor '",
                vendor.as_str(),
                "'",
            ),
            ExecutorError::QuotaExceeded => "Upstream quota exceeded".to_owned(),
            ExecutorError::AuthenticationFailed(vendor) => join(
                "Authentication failed for vendor '",
                vendor.as_str(),
                "'",
            ),
            ExecutorError::UpstreamRejected => "Upstream rejected the request".to_owned(),
            ExecutorError::TimeoutError(ms) => {
                let ms_text: String = decimal(*ms);
                join("Request timeout after ", ms_text.as_str(), "ms")
            },
            ExecutorError::DeadlineExceeded => "Request deadline exceeded".to_owned(),
            ExecutorError::NetworkError(detail) => join("Network error: ", detail.as_str(), ""),
            ExecutorError::JsonError(detail) => join("JSON parsing error: ", detail.as_str(), ""),
            ExecutorError::NoVendorsConfigured => "No LLM vendors configured".to_owned(),
            ExecutorError::InvalidConfiguration => "Invalid executor configuration".to_owned(),
            ExecutorError::MissingPricing => "Missing pricing for the selected target".to_owned(),
            ExecutorError::InvalidUpstreamResult => "Invalid upstream result".to_owned(),
            ExecutorError::CircuitOpen { vendor, .. } => join(
                "Circuit breaker open for vendor '",
                vendor.as_str(),
                "'",
            ),
        }
    }

    /// Maps the error to a status, a stable code and a client-safe message.
    ///
    /// Upstream credential, quota, protocol and transport failures share one
    /// status and code with fixed messages, so that a provider's refusal never looks like a refusal
    /// of the caller's own credential.
    pub fn into_response(self) -> (response: ErrorResponse)
        ensures
            response@ == response_of(self),
    {
        proof {
            reveal_strlit("");
        }
        match &self {
            ExecutorError::UnsupportedVendor(vendor) => ErrorResponse {
                status: 400,
                code: "unsupported_vendor",
                message: join("Vendor '", vendor.as_str(), "' is not supported"),
            },
            ExecutorError::UnsupportedModel(vendor, model) => {
                let mut message: String = join(
                    "Model '",
                    model.as_str(),
                    "' is not supported by vendor '",
                );
                message.append(vendor.as_str());
                message.append("'");
                ErrorResponse { status: 400, code: "unsupported_model", message }
            },
            ExecutorError::InvalidPayload(detail) => ErrorResponse {
                status: 400,
                code: "invalid_payload",
                message: join("Invalid request payload: ", detail.as_str(), ""),
            },
            ExecutorError::RateLimitExceeded { vendor, .. } => ErrorResponse {
                status: 429,
                code: "UPSTREAM_RATE_LIMIT",
                message: join("Rate limit exceeded for vendor '", vendor.as_str(), "'"),
            },
            ExecutorError::CircuitOpen { vendor, retry_after_ms } => {
                let wait: String = decimal(*retry_after_ms);
                let mut message: String = join(
                    "Vendor '",
                    vendor.as_str(),
                    "' temporarily unavailable, retry after ",
                );
                message.append(wait.as_str());
                message.append("ms");
                ErrorResponse { status: 503, code: "CIRCUIT_OPEN", message }
            },
            ExecutorError::DeadlineExceeded => ErrorResponse {
                status: 504,
                code: "DEADLINE_EXCEEDED",
                message: "The request deadline was exceeded".to_owned(),
            },
            ExecutorError::AuthenticationFailed(_)
            | ExecutorError::QuotaExceeded
            | ExecutorError::UpstreamRejected
            | ExecutorError::NetworkError(_) => ErrorResponse {
                status: 502,
                code: "UPSTREAM_ERROR",
                message: "Failed to execute LLM request".to_owned(),
            },
            ExecutorError::JsonError(_) => ErrorResponse {
                status: 502,
                code: "UPSTREAM_ERROR",
                message: "An internal error occurred".to_owned(),
            },
            ExecutorError::InvalidUpstreamResult => ErrorResponse {
                status: 502,
                code: "UPSTREAM_ERROR",
                message: "Upstream result could not be used".to_owned(),
            },
            ExecutorError::ApiCallFailed(_) | ExecutorError::TimeoutError(_) => ErrorResponse {
                status: 500,
                code: "execution_failed",
                message: "Failed to execute LLM request".to_owned(),
            },
            ExecutorError::NoVendorsConfigured => ErrorResponse {
                status: 500,
                code: "no_vendors_configured",
                message: "No LLM vendors are configured".to_owned(),
            },
            ExecutorError::InvalidConfiguration => ErrorResponse {
                status: 500,
                code: "invalid_configuration",
                message: "Executor configuration is invalid".to_owned(),
            },
            ExecutorError::MissingPricing => ErrorResponse {
                status: 500,
                code: "missing_pricing",
                message: "Configured pricing is missing for the selected target".to_owned(),
            },
        }
    }
}

/// What an HTTP client reports of a request that failed.
#[derive(Debug)]
pub struct TransportFault {
    /// It ran out of time.
    pub timeout: bool,
    /// The answer could not be decoded.
    pub decode: bool,
    /// No connection came about.
    pub connect: bool,
    /// The request could not be sent.
    pub request: bool,
    /// An answer's status was taken as an error.
    pub status_error: bool,
    /// That status, as number and as text.
    pub status: Option<(u16, String)>,
}

/// Whether `error` is how a transport fault is classified.
pub open spec fn is_transport_error(fault: TransportFault, error: ExecutorError) -> bool {
    if fault.timeout {
        error == ExecutorError::TimeoutError(0)
    } else if fault.decode {
        error matches ExecutorError::JsonError(detail) && detail@ == "malformed upstream JSON"@
    } else if fault.connect || fault.request || !fault.status_error {
        error matches ExecutorError::NetworkError(detail) && detail@ == "upstream transport error"@
    } else {
        match fault.status {
            Some((status, shown)) => if status == 401 {
                error matches ExecutorError::AuthenticationFailed(vendor) && vendor@ == "unknown"@
            } else if status == 429 {
                error matches ExecutorError::RateLimitExceeded { vendor, retry_after_ms } && vendor@
                    == "unknown"@ && retry_after_ms is None
            } else {
                error matches ExecutorError::ApiCallFailed(detail) && detail@ == "HTTP "@ + shown@
            },
            None => error matches ExecutorError::ApiCallFailed(detail) && detail@
                == "HTTP status error"@,
        }
    }
}

impl ExecutorError {
    /// Classifies a transport fault.
    pub fn from_transport(fault: TransportFault) -> (error: ExecutorError)
        ensures
            is_transport_error(fault, error),
    {
        if fault.timeout {
            ExecutorError::TimeoutError(0)
        } else if fault.decode {
            ExecutorError::JsonError("malformed upstream JSON".to_owned())
        } else if fault.connect || fault.request || !fault.status_error {
            ExecutorError::NetworkError("upstream transport error".to_owned())
        } else {
            match fault.status {
                Some((status, shown)) => {
                    if status == 401 {
                        ExecutorError::AuthenticationFailed("unknown".to_owned())
                    } else if status == 429 {
                        ExecutorError::RateLimitExceeded {
                            vendor: "unknown".to_owned(),
                            retry_after_ms: None,
                        }
                    } else {
                        let mut detail: String = "HTTP ".to_owned();
                        detail.append(shown.as_str());
                        ExecutorError::ApiCallFailed(detail)
                    }
                },
                None => ExecutorError::ApiCallFailed("HTTP status error".to_owned()),
            }
        }
    }
}

/// No failure of an upstream call is answered as a refusal of the caller's own
/// credential, and the answer to an upstream credential, quota, protocol or
/// transport failure is one of three fixed ones: nothing that the provider said
/// is in it.
pub proof fn law_upstream_failures_are_sanitized(error: ExecutorError)
    ensures
        response_of(error).status != 401,
        response_of(error).status == 502 ==> response_of(error) == upstream_error(
            if error is JsonError {
                "An internal error occurred"@
            } else if error is InvalidUpstreamResult {
                "Upstream result could not be used"@
            } else {
                "Failed to execute LLM request"@
            },
        ),
{
}

} // verus!
