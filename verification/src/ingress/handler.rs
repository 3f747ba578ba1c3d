//! Acceptance of a routing request.

use vstd::prelude::*;

use crate::common::config::PolicyLimits;
use crate::common::json;
use crate::ingress::error::IngressError;
use crate::ingress::service::IngressRequest;
use crate::ingress::validate;
use crate::ingress::validate::parse_ingress_request;
use crate::middleware::auth::ApiKeyKind;

verus! {

/// Accepts or refuses a routing request by the caller's key and the body.
///
/// # Errors
/// - `AuthorizationFailed` when the key is not an inference key, whatever the
///   body holds
/// - `InvalidRequest` when the body is not acceptable
pub fn accept_request(kind: ApiKeyKind, body: &serde_json::Value, limits: &PolicyLimits) -> (request:
    Result<IngressRequest, IngressError>)
    ensures
        if !(kind is Inference) {
            request matches Err(error) && error is AuthorizationFailed
        } else {
            match request {
                Ok(request) => {
                    &&& validate::request_fault(json::json_tree(*body), *limits) is None
                    &&& validate::is_request_of(request, json::json_tree(*body))
                },
                Err(error) => validate::request_fault(json::json_tree(*body), *limits) matches Some(
                    fault,
                ) && validate::is_rejection(error, fault),
            }
        },
{
    match kind {
        ApiKeyKind::Inference => parse_ingress_request(body, limits),
        ApiKeyKind::Management => Err(IngressError::AuthorizationFailed),
    }
}

} // verus!
