//! Presented API keys.

use vstd::prelude::*;

use crate::common::http_error::{ErrorResponse, ErrorResponseView};
use crate::common::text;
use crate::common::text::{chars_of, header_text, same_text, trim};

verus! {

/// What a key may be used for.
#[derive(Clone, Copy, PartialEq, Eq, Structural, Debug)]
pub enum ApiKeyKind {
    /// Key inventory and issue
    Management,
    /// Generation
    Inference,
}

/// What the `X-API-Key` headers of a request present.
pub enum PresentedKey {
    Missing,
    Invalid,
    Value(String),
}

/// Why a credential check failed.
#[derive(Clone, Copy, PartialEq, Eq, Structural, Debug)]
pub enum AuthError {
    /// The credential is missing, malformed or unknown.
    InvalidCredentials,
    /// The credential store cannot be asked.
    StoreUnavailable,
}

/// Whether a text may be an API key: not empty, not padded with whitespace, and
/// without a comma, which would join two keys.
pub open spec fn is_key_text(value: Seq<char>) -> bool {
    value.len() > 0 && text::trimmed(value) == value && !value.contains(',')
}

/// The key that a list of raw header values presents: exactly one value, readable
/// as text, that may be a key.
pub open spec fn key_of(values: Seq<Vec<u8>>) -> Option<Seq<char>> {
    if values.len() == 1 {
        match text::header_text_of(values[0]@) {
            Some(value) => if is_key_text(value) {
                Some(value)
            } else {
                None
            },
            None => None,
        }
    } else {
        None
    }
}

fn has_comma(value: &str) -> (found: bool)
    ensures
        found == value@.contains(','),
{
    let chars: Vec<char> = chars_of(value);
    let mut i: usize = 0;
    while i < chars.len()
        invariant
            i <= chars.len(),
            chars@ == value@,
            forall|k: int| 0 <= k < i ==> value@[k] != ',',
        decreases chars.len() - i,
    {
        if chars[i] == ',' {
            assert(value@[i as int] == ',');
            return true;
        }
        i += 1;
    }
    false
}

/// Extracts a single unambiguous API key from the raw `X-API-Key` values.
///
/// Missing, empty, non-text, whitespace-padded, comma-joined, and duplicate
/// headers are rejected.
pub fn presented_api_key(values: &Vec<Vec<u8>>) -> (presented: PresentedKey)
    ensures
        match presented {
            PresentedKey::Missing => values@.len() == 0,
            PresentedKey::Invalid => values@.len() > 0 && key_of(values@) is None,
            PresentedKey::Value(value) => key_of(values@) == Some(value@),
        },
{
    if values.len() == 0 {
        return PresentedKey::Missing;
    }
    if values.len() > 1 {
        return PresentedKey::Invalid;
    }
    let value: &str = match header_text(values[0].as_slice()) {
        Some(value) => value,
        None => {
            return PresentedKey::Invalid;
        },
    };
    if value.is_empty() || !same_text(trim(value), value) || has_comma(value) {
        return PresentedKey::Invalid;
    }
    PresentedKey::Value(value.to_owned())
}

impl PresentedKey {
    /// A description that never holds the key.
    pub fn redacted(&self) -> (shown: &'static str)
        ensures
            shown@ == (match self {
                PresentedKey::Missing => "Missing"@,
                PresentedKey::Invalid => "Invalid"@,
                PresentedKey::Value(_) => "Value([redacted])"@,
            }),
    {
        match self {
            PresentedKey::Missing => "Missing",
            PresentedKey::Invalid => "Invalid",
            PresentedKey::Value(_) => "Value([redacted])",
        }
    }

    /// The credential to check.
    ///
    /// # Errors
    /// Returns `InvalidCredentials` when no valid key is presented.
    pub fn credential(self) -> (credential: Result<String, AuthError>)
        ensures
            credential == (match self {
                PresentedKey::Value(value) => Ok::<String, AuthError>(value),
                _ => Err(AuthError::InvalidCredentials),
            }),
    {
        match self {
            PresentedKey::Value(value) => Ok(value),
            PresentedKey::Missing | PresentedKey::Invalid => Err(AuthError::InvalidCredentials),
        }
    }
}

/// What a request with a failed credential check is answered with.
pub open spec fn response_of(error: AuthError) -> ErrorResponseView {
    match error {
        AuthError::InvalidCredentials => ErrorResponseView {
            status: 401,
            code: "INVALID_CREDENTIALS"@,
            message: "Authentication is required to access this resource."@,
        },
        AuthError::StoreUnavailable => ErrorResponseView {
            status: 503,
            code: "AUTHENTICATION_UNAVAILABLE"@,
            message: "Authentication is temporarily unavailable."@,
        },
    }
}

impl AuthError {
    /// Maps the error to a status, a stable code and a client-safe message.
    pub fn into_response(self) -> (response: ErrorResponse)
        ensures
            response@ == response_of(self),
    {
        match self {
            AuthError::InvalidCredentials => ErrorResponse {
                status: 401,
                code: "INVALID_CREDENTIALS",
                message: "Authentication is required to access this resource.".to_owned(),
            },
            AuthError::StoreUnavailable => ErrorResponse {
                status: 503,
                code: "AUTHENTICATION_UNAVAILABLE",
                message: "Authentication is temporarily unavailable.".to_owned(),
            },
        }
    }
}

} // verus!
