//! What failures are answered with, by their kind.

use vstd::prelude::*;

use crate::common::http_error::ErrorResponse;
use crate::common::text;
use crate::executor::error::ExecutorError;
use crate::health::error::HealthError;
use crate::ingress::error::IngressError;
use crate::middleware::auth::AuthError;

verus! {

/// Each failure has its own status and code. Faults of the request are the
/// client's, throttling is named as the provider's, an open circuit and an
/// expired deadline are told apart, and whatever else went wrong upstream shares
/// one answer.
pub proof fn law_failures_are_answered_by_kind(error: ExecutorError, response: ErrorResponse)
    requires
        call_ensures(ExecutorError::into_response, (error,), response),
    ensures
        error is UnsupportedVendor ==> response.status == 400 && response.code@
            == "unsupported_vendor"@,
        error is UnsupportedModel ==> response.status == 400 && response.code@
            == "unsupported_model"@,
        error is InvalidPayload ==> response.status == 400 && response.code@ == "invalid_payload"@,
        error is RateLimitExceeded ==> response.status == 429 && response.code@
            == "UPSTREAM_RATE_LIMIT"@,
        error is CircuitOpen ==> response.status == 503 && response.code@ == "CIRCUIT_OPEN"@,
        error is DeadlineExceeded ==> response.status == 504 && response.code@
            == "DEADLINE_EXCEEDED"@,
        error is AuthenticationFailed || error is QuotaExceeded || error is UpstreamRejected
            || error is NetworkError || error is JsonError || error is InvalidUpstreamResult
            ==> response.status == 502 && response.code@ == "UPSTREAM_ERROR"@,
        error is ApiCallFailed || error is TimeoutError ==> response.status == 500
            && response.code@ == "execution_failed"@,
        error is NoVendorsConfigured ==> response.status == 500 && response.code@
            == "no_vendors_configured"@,
        error is InvalidConfiguration ==> response.status == 500 && response.code@
            == "invalid_configuration"@,
        error is MissingPricing ==> response.status == 500 && response.code@
            == "missing_pricing"@,
{
}

/// Nothing that a provider said reaches the client: two failures of one kind
/// upstream are answered alike, whatever they carry.
pub proof fn law_provider_text_stays_inside(
    a: ExecutorError,
    b: ExecutorError,
    shown_a: ErrorResponse,
    shown_b: ErrorResponse,
)
    requires
        call_ensures(ExecutorError::into_response, (a,), shown_a),
        call_ensures(ExecutorError::into_response, (b,), shown_b),
        (a is NetworkError && b is NetworkError) || (a is ApiCallFailed && b is ApiCallFailed) || (
        a is JsonError && b is JsonError) || (a is AuthenticationFailed
            && b is AuthenticationFailed) || (a is TimeoutError && b is TimeoutError),
    ensures
        shown_a.status == shown_b.status,
        shown_a.code@ == shown_b.code@,
        shown_a.message@ == shown_b.message@,
{
}

/// What a client is told of a fault of its own names what was asked for, and an
/// open circuit names the vendor and the wait.
pub proof fn law_client_faults_are_named(error: ExecutorError, response: ErrorResponse)
    requires
        call_ensures(ExecutorError::into_response, (error,), response),
    ensures
        error matches ExecutorError::UnsupportedVendor(vendor) ==> response.message@ == "Vendor '"@
            + vendor@ + "' is not supported"@,
        error matches ExecutorError::UnsupportedModel(vendor, model) ==> response.message@
            == "Model '"@ + model@ + "' is not supported by vendor '"@ + vendor@ + "'"@,
        error matches ExecutorError::InvalidPayload(detail) ==> response.message@
            == "Invalid request payload: "@ + detail@,
        error matches ExecutorError::RateLimitExceeded { vendor, .. } ==> response.message@
            == "Rate limit exceeded for vendor '"@ + vendor@ + "'"@,
        error matches ExecutorError::CircuitOpen { vendor, retry_after_ms } ==> response.message@
            == "Vendor '"@ + vendor@ + "' temporarily unavailable, retry after "@
            + text::decimal_text(retry_after_ms as nat) + "ms"@,
{
}

/// What a client is told of everything else is a fixed text.
pub proof fn law_other_faults_have_fixed_texts(error: ExecutorError, response: ErrorResponse)
    requires
        call_ensures(ExecutorError::into_response, (error,), response),
    ensures
        error is DeadlineExceeded ==> response.message@ == "The request deadline was exceeded"@,
        error is AuthenticationFailed || error is QuotaExceeded || error is UpstreamRejected
            || error is NetworkError || error is ApiCallFailed || error is TimeoutError
            ==> response.message@ == "Failed to execute LLM request"@,
        error is JsonError ==> response.message@ == "An internal error occurred"@,
        error is InvalidUpstreamResult ==> response.message@
            == "Upstream result could not be used"@,
        error is NoVendorsConfigured ==> response.message@ == "No LLM vendors are configured"@,
        error is InvalidConfiguration ==> response.message@
            == "Executor configuration is invalid"@,
        error is MissingPricing ==> response.message@
            == "Configured pricing is missing for the selected target"@,
{
}

/// Server-side text tells what the client is not told.
pub proof fn law_logs_name_the_cause(error: ExecutorError, shown: String)
    requires
        call_ensures(ExecutorError::describe, (&error,), shown),
    ensures
        error matches ExecutorError::ApiCallFailed(detail) ==> shown@ == "API call failed: "@
            + detail@,
        error matches ExecutorError::NetworkError(detail) ==> shown@ == "Network error: "@
            + detail@,
        error matches ExecutorError::JsonError(detail) ==> shown@ == "JSON parsing error: "@
            + detail@,
        error matches ExecutorError::InvalidPayload(detail) ==> shown@
            == "Invalid payload format: "@ + detail@,
        error matches ExecutorError::TimeoutError(ms) ==> shown@ == "Request timeout after "@
            + text::decimal_text(ms as nat) + "ms"@,
        error is DeadlineExceeded ==> shown@ == "Request deadline exceeded"@,
        error is QuotaExceeded ==> shown@ == "Upstream quota exceeded"@,
        error matches ExecutorError::UnsupportedVendor(vendor) ==> shown@
            == "Unsupported vendor: "@ + vendor@,
        error matches ExecutorError::UnsupportedModel(vendor, model) ==> shown@
            == "Unsupported model '"@ + model@ + "' for vendor '"@ + vendor@ + "'"@,
        error matches ExecutorError::RateLimitExceeded { vendor, .. } ==> shown@
            == "Rate limit exceeded for vendor '"@ + vendor@ + "'"@,
        error matches ExecutorError::AuthenticationFailed(vendor) ==> shown@
            == "Authentication failed for vendor '"@ + vendor@ + "'"@,
        error matches ExecutorError::CircuitOpen { vendor, .. } ==> shown@
            == "Circuit breaker open for vendor '"@ + vendor@ + "'"@,
        error is UpstreamRejected ==> shown@ == "Upstream rejected the request"@,
        error is NoVendorsConfigured ==> shown@ == "No LLM vendors configured"@,
        error is InvalidConfiguration ==> shown@ == "Invalid executor configuration"@,
        error is MissingPricing ==> shown@ == "Missing pricing for the selected target"@,
        error is InvalidUpstreamResult ==> shown@ == "Invalid upstream result"@,
{
}

/// A request's own failures are answered by their kind, and an execution's as
/// the executor answers them.
pub proof fn law_request_failures_are_answered_by_kind(
    error: IngressError,
    response: ErrorResponse,
    inner: ErrorResponse,
)
    requires
        call_ensures(IngressError::into_response, (error,), response),
        error matches IngressError::ExecutionFailed(failure) ==> call_ensures(
            ExecutorError::into_response,
            (failure,),
            inner,
        ),
    ensures
        error matches IngressError::InvalidRequest(message) ==> response.status == 400
            && response.code@ == "INVALID_REQUEST"@ && response.message@ == message@,
        error is AuthenticationRequired ==> response.status == 401 && response.code@
            == "AUTHENTICATION_REQUIRED"@ && response.message@
            == "Authentication is required to access this resource."@,
        error is AuthorizationFailed ==> response.status == 403 && response.code@
            == "AUTHORIZATION_FAILED"@ && response.message@
            == "You do not have permission to perform this operation."@,
        error is RequestOrchestrationFailed ==> response.status == 500 && response.code@
            == "REQUEST_ORCHESTRATION_FAILED"@ && response.message@
            == "An internal error occurred while processing your request."@,
        error is ExecutionFailed ==> response.status == inner.status && response.code@
            == inner.code@ && response.message@ == inner.message@,
{
}

/// A credential that is not accepted is answered 401, a store that cannot be
/// asked 503, and so is a failed health check.
pub proof fn law_credential_and_health_failures(
    error: AuthError,
    refused: ErrorResponse,
    fault: HealthError,
    unhealthy: ErrorResponse,
)
    requires
        call_ensures(AuthError::into_response, (error,), refused),
        call_ensures(HealthError::into_response, (fault,), unhealthy),
    ensures
        error is InvalidCredentials ==> refused.status == 401 && refused.code@
            == "INVALID_CREDENTIALS"@ && refused.message@
            == "Authentication is required to access this resource."@,
        error is StoreUnavailable ==> refused.status == 503 && refused.code@
            == "AUTHENTICATION_UNAVAILABLE"@ && refused.message@
            == "Authentication is temporarily unavailable."@,
        unhealthy.status == 503 && unhealthy.code@ == "HEALTH_CHECK_FAILED"@ && unhealthy.message@
            == "Health check failed - service temporarily unavailable."@,
{
}

} // verus!
