//! Correlation identifiers of a request.
//!
//! Every request gets a fresh identifier. A client may add one of its own, which
//! is echoed when it is usable and ignored when it is not; neither ever fails a
//! request.

use vstd::prelude::*;

use crate::common::random::random_bytes;
use crate::common::text;
use crate::common::text::{decimal, header_text};
use crate::common::time::SystemTime;

verus! {

/// Longest client identifier, in bytes.
pub const MAX_CORRELATION_ID_BYTES: usize = 256;

/// Identifiers that a request carries through the process.
#[derive(Debug)]
pub struct RequestContext {
    /// System-generated unique request ID
    pub request_id: String,
    /// Client-provided correlation ID
    pub client_correlation_id: Option<String>,
}

/// The lower-case hexadecimal digit of a number below sixteen.
pub open spec fn hex_digit(n: int) -> char {
    if n < 10 {
        ('0' as int + n) as char
    } else {
        ('a' as int + n - 10) as char
    }
}

/// The bytes of the version 4 UUID made of random bytes: the version stands in
/// the upper half of the seventh, the variant in the upper two bits of the
/// ninth.
pub open spec fn uuid_byte(random: Seq<u8>, i: int) -> int {
    if i == 6 {
        0x40 + random[i] % 16
    } else if i == 8 {
        0x80 + random[i] % 64
    } else {
        random[i] as int
    }
}

/// The hexadecimal digit at place `k` of that UUID's thirty-two.
pub open spec fn uuid_digit(random: Seq<u8>, k: int) -> char {
    if k % 2 == 0 {
        hex_digit(uuid_byte(random, k / 2) / 16)
    } else {
        hex_digit(uuid_byte(random, k / 2) % 16)
    }
}

/// The hyphenated lower-case text of that UUID.
pub open spec fn uuid_text(random: Seq<u8>) -> Seq<char> {
    Seq::new(
        36,
        |i: int|
            if i == 8 || i == 13 || i == 18 || i == 23 {
                '-'
            } else if i < 8 {
                uuid_digit(random, i)
            } else if i < 13 {
                uuid_digit(random, i - 1)
            } else if i < 18 {
                uuid_digit(random, i - 2)
            } else if i < 23 {
                uuid_digit(random, i - 3)
            } else {
                uuid_digit(random, i - 4)
            },
    )
}

/// `uuid::Builder::from_random_bytes`, shown by the `to_string` of the UUID that
/// it builds: the bytes with version 4 and its variant set, in the hyphenated
/// lower-case form.
#[verifier::external_body]
fn show_uuid(random: [u8; 16]) -> (id: String)
    ensures
        id@ == uuid_text(random@),
{
    uuid::Builder::from_random_bytes(random).into_uuid().to_string()
}

/// The identifier of a request that starts at `now`: the version 4 UUID made of
/// random bytes, or the time when there are none.
pub open spec fn request_id_of(random: Option<Seq<u8>>, now: SystemTime) -> Seq<char> {
    match random {
        Some(random) => uuid_text(random),
        None => text::decimal_text(
            if now.secs >= 0 {
                now.secs as nat
            } else {
                0
            },
        ) + "-"@ + text::decimal_text(now.nanos as nat),
    }
}

/// The bytes behind an optional array.
pub open spec fn optional_array(random: Option<[u8; 16]>) -> Option<Seq<u8>> {
    match random {
        Some(random) => Some(random@),
        None => None,
    }
}

/// Makes the identifier of a request that starts at `now` from random bytes, or
/// from the time when there are none.
pub fn request_id_from(random: Option<[u8; 16]>, now: SystemTime) -> (id: String)
    ensures
        id@ == request_id_of(optional_array(random), now),
{
    match random {
        Some(random) => show_uuid(random),
        None => {
            let secs: u64 = if now.secs >= 0 {
                now.secs as u64
            } else {
                0
            };
            let mut id: String = decimal(secs);
            id.append("-");
            id.append(decimal(now.nanos as u64).as_str());
            id
        },
    }
}

/// Sixteen random bytes, when the system has them to give.
fn fresh_bytes() -> (random: Option<[u8; 16]>) {
    match random_bytes(16) {
        Some(b) => Some(
            [
                b[0],
                b[1],
                b[2],
                b[3],
                b[4],
                b[5],
                b[6],
                b[7],
                b[8],
                b[9],
                b[10],
                b[11],
                b[12],
                b[13],
                b[14],
                b[15],
            ],
        ),
        None => None,
    }
}

/// The identifier that a raw `X-Correlation-ID` value gives: readable as text,
/// not empty, and not too long.
pub open spec fn client_id_of(header: Option<Seq<u8>>) -> Option<Seq<char>> {
    match header {
        Some(bytes) => if 0 < bytes.len() <= MAX_CORRELATION_ID_BYTES {
            text::header_text_of(bytes)
        } else {
            None
        },
        None => None,
    }
}

/// Reads the client's identifier from the raw `X-Correlation-ID` value.
pub fn client_correlation_id(header: Option<&[u8]>) -> (id: Option<String>)
    ensures
        text::optional_text(id) == client_id_of(text::optional_bytes(header)),
{
    let bytes: &[u8] = match header {
        Some(bytes) => bytes,
        None => {
            return None;
        },
    };
    if bytes.len() == 0 || bytes.len() > MAX_CORRELATION_ID_BYTES {
        return None;
    }
    match header_text(bytes) {
        Some(text) => Some(text.to_owned()),
        None => None,
    }
}

/// Assigns a request that starts at `now` its identifiers. It never fails: when
/// the system has no random bytes to give, the time stands in for them.
pub fn assign_request_context(header: Option<&[u8]>, now: SystemTime) -> (context: RequestContext)
    ensures
        exists|random: Option<[u8; 16]>|
            context.request_id@ == #[trigger] request_id_of(optional_array(random), now),
        text::optional_text(context.client_correlation_id) == client_id_of(text::optional_bytes(header)),
{
    RequestContext {
        request_id: request_id_from(fresh_bytes(), now),
        client_correlation_id: client_correlation_id(header),
    }
}

/// Name and text of a header.
pub open spec fn header_view(header: (&'static str, String)) -> (Seq<char>, Seq<char>) {
    (header.0@, header.1@)
}

/// The identifiers to put on the response: the request's always, the client's
/// when it gave one.
pub fn response_headers(context: &RequestContext) -> (headers: Vec<(&'static str, String)>)
    ensures
        headers@.len() >= 1,
        header_view(headers@[0]) == ("X-Request-ID"@, context.request_id@),
        match context.client_correlation_id {
            Some(id) => headers@.len() == 2 && header_view(headers@[1]) == (
                "X-Correlation-ID"@,
                id@,
            ),
            None => headers@.len() == 1,
        },
{
    let mut headers: Vec<(&'static str, String)> = Vec::new();
    headers.push(("X-Request-ID", context.request_id.clone()));
    match &context.client_correlation_id {
        Some(id) => headers.push(("X-Correlation-ID", id.clone())),
        None => {},
    }
    headers
}

/// Every character may stand in a header value.
pub open spec fn is_header_safe(value: Seq<char>) -> bool {
    forall|i: int| 0 <= i < value.len() ==> 32 <= (#[trigger] value[i]) as u32 <= 126 || value[i]
        == '\t'
}

proof fn lemma_decimal_is_header_safe(n: nat)
    ensures
        is_header_safe(text::decimal_text(n)),
    decreases n,
{
    if n >= 10 {
        lemma_decimal_is_header_safe(n / 10);
    }
}

proof fn lemma_uuid_is_header_safe(random: Seq<u8>)
    requires
        random.len() == 16,
    ensures
        is_header_safe(uuid_text(random)),
{
    assert forall|k: int| 0 <= k < 32 implies 32 <= (#[trigger] uuid_digit(random, k)) as u32
        <= 126 by {
        let byte = uuid_byte(random, k / 2);
        assert(0 <= byte < 256);
    }
}

/// Both identifiers of an assigned context can always be put on a response.
pub proof fn law_identifiers_are_header_safe(
    random: Option<[u8; 16]>,
    now: SystemTime,
    header: Option<Seq<u8>>,
)
    ensures
        is_header_safe(request_id_of(optional_array(random), now)),
        client_id_of(header) matches Some(id) ==> is_header_safe(id),
{
    match random {
        Some(random) => {
            lemma_uuid_is_header_safe(random@);
        },
        None => {
            reveal_strlit("-");
            lemma_decimal_is_header_safe(
                if now.secs >= 0 {
                    now.secs as nat
                } else {
                    0
                },
            );
            lemma_decimal_is_header_safe(now.nanos as nat);
        },
    }
    if let Some(bytes) = header {
        if let Some(id) = client_id_of(header) {
            assert forall|i: int| 0 <= i < id.len() implies 32 <= (#[trigger] id[i]) as u32 <= 126
                || id[i] == '\t' by {
                assert(text::is_header_text_byte(bytes[i]));
            }
        }
    }
}

} // verus!
