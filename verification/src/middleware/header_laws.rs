//! What holds of the credentials and identifiers that headers carry.

use vstd::prelude::*;

use crate::common::text;
use crate::common::text_laws;
use crate::common::time::SystemTime;
use crate::middleware::auth;
use crate::middleware::auth::{presented_api_key, AuthError, PresentedKey};
use crate::middleware::correlation_id;
use crate::middleware::correlation_id::{
    assign_request_context, client_correlation_id, request_id_from, response_headers,
    RequestContext,
};

verus! {

/// Whether a byte reads as text in a header.
pub open spec fn is_readable(b: u8) -> bool {
    0x20 <= b <= 0x7e || b == 0x09
}

/// Whether bytes are readable as a single key: there are some, none at an end is
/// blank, and no comma joins two.
pub open spec fn is_single_key(bytes: Seq<u8>) -> bool {
    &&& bytes.len() > 0
    &&& forall|i: int|
        0 <= i < bytes.len() ==> is_readable(#[trigger] bytes[i]) && bytes[i] != 0x2c
    &&& bytes[0] != 0x20 && bytes[0] != 0x09
    &&& bytes.last() != 0x20 && bytes.last() != 0x09
}

proof fn lemma_readable(bytes: Seq<u8>)
    ensures
        text::header_text_of(bytes) is Some <==> forall|i: int|
            0 <= i < bytes.len() ==> is_readable(#[trigger] bytes[i]),
        text::header_text_of(bytes) matches Some(shown) ==> shown.len() == bytes.len()
            && forall|i: int| 0 <= i < bytes.len() ==> #[trigger] shown[i] == bytes[i] as char,
{
    if text::header_text_of(bytes) is Some {
        assert forall|i: int| 0 <= i < bytes.len() implies is_readable(#[trigger] bytes[i]) by {
            assert(text::is_header_text_byte(bytes[i]));
        }
    } else {
        let i = choose|i: int|
            0 <= i < bytes.len() && !text::is_header_text_byte(#[trigger] bytes[i]);
        assert(!is_readable(bytes[i]));
    }
}

proof fn lemma_comma(bytes: Seq<u8>, shown: Seq<char>)
    requires
        shown.len() == bytes.len(),
        forall|i: int| 0 <= i < bytes.len() ==> #[trigger] shown[i] == bytes[i] as char,
        forall|i: int| 0 <= i < bytes.len() ==> is_readable(#[trigger] bytes[i]),
    ensures
        shown.contains(',') <==> exists|i: int| 0 <= i < bytes.len() && #[trigger] bytes[i] == 0x2c,
{
    if shown.contains(',') {
        let i = choose|i: int| 0 <= i < shown.len() && shown[i] == ',';
        assert(is_readable(bytes[i]));
        assert(bytes[i] == 0x2c);
    }
    if exists|i: int| 0 <= i < bytes.len() && #[trigger] bytes[i] == 0x2c {
        let i = choose|i: int| 0 <= i < bytes.len() && #[trigger] bytes[i] == 0x2c;
        assert(shown[i] == ',');
    }
}

proof fn lemma_key(bytes: Seq<u8>)
    ensures
        is_single_key(bytes) <==> (text::header_text_of(bytes) matches Some(shown)
            && auth::is_key_text(shown)),
{
    lemma_readable(bytes);
    if text::header_text_of(bytes) is Some && bytes.len() > 0 {
        let shown = text::header_text_of(bytes).unwrap();
        lemma_comma(bytes, shown);
        text_laws::law_only_outer_blanks_are_trimmed(shown);
        assert(is_readable(bytes[0]) && is_readable(bytes[bytes.len() - 1]));
        assert(shown[0] == bytes[0] as char);
        assert(shown[bytes.len() - 1] == bytes[bytes.len() - 1] as char);
        assert(text_laws::is_blank(shown[0]) <==> bytes[0] == 0x20 || bytes[0] == 0x09);
        assert(text_laws::is_blank(shown.last()) <==> bytes.last() == 0x20 || bytes.last()
            == 0x09);
        if is_single_key(bytes) {
            assert(!shown.contains(','));
        }
        if !shown.contains(',') {
            assert forall|i: int| 0 <= i < bytes.len() implies is_readable(#[trigger] bytes[i])
                && bytes[i] != 0x2c by {}
        }
    } else if is_single_key(bytes) {
        assert forall|i: int| 0 <= i < bytes.len() implies is_readable(#[trigger] bytes[i]) by {}
    }
}

/// A request presents a key exactly when it has one header that is readable as a
/// single key, and then it is that text, byte for byte. No header is missing;
/// anything else is invalid, and only a presented key is a credential.
pub proof fn law_one_readable_header_presents_a_key(
    values: &Vec<Vec<u8>>,
    presented: PresentedKey,
    credential: Result<String, AuthError>,
)
    requires
        call_ensures(presented_api_key, (values,), presented),
        call_ensures(PresentedKey::credential, (presented,), credential),
    ensures
        presented is Missing <==> values@.len() == 0,
        presented is Value <==> values@.len() == 1 && is_single_key(values@[0]@),
        presented matches PresentedKey::Value(key) ==> {
            &&& key@.len() == values@[0]@.len()
            &&& forall|i: int|
                0 <= i < key@.len() ==> #[trigger] key@[i] == values@[0]@[i] as char
            &&& credential matches Ok(used) && used@ == key@
        },
        !(presented is Value) ==> credential == Err::<String, AuthError>(
            AuthError::InvalidCredentials,
        ),
{
    if values@.len() == 1 {
        lemma_key(values@[0]@);
        lemma_readable(values@[0]@);
    }
}

/// A key is never shown.
pub proof fn law_keys_are_never_shown(a: PresentedKey, b: PresentedKey, seen_a: &str, seen_b: &str)
    requires
        call_ensures(PresentedKey::redacted, (&a,), seen_a),
        call_ensures(PresentedKey::redacted, (&b,), seen_b),
        a is Value,
        b is Value,
    ensures
        seen_a@ == seen_b@,
        seen_a@ == "Value([redacted])"@,
{
}

/// A client's identifier is kept, byte for byte, exactly when it is readable as
/// text, not empty and at most 256 bytes long.
pub proof fn law_usable_client_identifiers_are_kept(header: Option<&[u8]>, id: Option<String>)
    requires
        call_ensures(client_correlation_id, (header,), id),
    ensures
        id is Some <==> (header matches Some(bytes) && 1 <= bytes@.len() <= 256 && forall|i: int|
            0 <= i < bytes@.len() ==> is_readable(#[trigger] bytes@[i])),
        id matches Some(kept) ==> {
            let bytes = header.unwrap()@;
            kept@.len() == bytes.len() && forall|i: int|
                0 <= i < bytes.len() ==> (#[trigger] kept@[i]) as int == bytes[i]
        },
{
    if let Some(bytes) = header {
        if forall|i: int| 0 <= i < bytes@.len() ==> is_readable(#[trigger] bytes@[i]) {
            assert forall|i: int|
                0 <= i < bytes@.len() implies text::is_header_text_byte(
                #[trigger] bytes@[i],
            ) by {
                assert(is_readable(bytes@[i]));
            }
        }
        if id is Some {
            assert forall|i: int| 0 <= i < bytes@.len() implies is_readable(
                #[trigger] bytes@[i],
            ) by {
                assert(text::is_header_text_byte(bytes@[i]));
            }
        }
    }
}

/// A request's identifier made of random bytes is a version 4 UUID in its
/// hyphenated lower-case form.
pub proof fn law_identifiers_are_uuids(random: [u8; 16], now: SystemTime, id: String, i: int)
    requires
        call_ensures(request_id_from, (Some(random), now), id),
        0 <= i < 36,
    ensures
        id@.len() == 36,
        i == 8 || i == 13 || i == 18 || i == 23 <==> id@[i] == '-',
        id@[14] == '4',
        id@[19] == '8' || id@[19] == '9' || id@[19] == 'a' || id@[19] == 'b',
        id@[i] == '-' || '0' <= id@[i] <= '9' || 'a' <= id@[i] <= 'f',
{
    assert forall|k: int| 0 <= k < 32 implies '0' <= #[trigger]
        correlation_id::uuid_digit(random@, k) <= '9' || 'a'
        <= correlation_id::uuid_digit(random@, k) <= 'f' by {
        let byte = correlation_id::uuid_byte(random@, k / 2);
        assert(0 <= byte < 256);
    }
}

/// Without random bytes the identifier is the time: the seconds since the epoch,
/// zero before it, and the nanoseconds.
pub proof fn law_time_stands_in_for_randomness(now: SystemTime, id: String)
    requires
        call_ensures(request_id_from, (None::<[u8; 16]>, now), id),
    ensures
        now.secs >= 0 ==> id@ == text::decimal_text(now.secs as nat) + "-"@ + text::decimal_text(
            now.nanos as nat,
        ),
        now.secs < 0 ==> id@ == text::decimal_text(0) + "-"@ + text::decimal_text(
            now.nanos as nat,
        ),
{
}

/// Each byte of a request's identifier stands in it as two hexadecimal digits,
/// in order, where the version and the variant leave it as it is.
pub proof fn law_identifier_shows_its_bytes(
    random: [u8; 16],
    now: SystemTime,
    id: String,
    i: int,
    at: int,
)
    requires
        call_ensures(request_id_from, (Some(random), now), id),
        0 <= i < 16,
        i != 6,
        i != 8,
        at == 2 * i + (if i < 4 {
            0int
        } else if i < 6 {
            1
        } else if i < 8 {
            2
        } else if i < 10 {
            3
        } else {
            4
        }),
    ensures
        random@[i] as int / 16 < 10 ==> id@[at] as int == '0' as int + random@[i] as int / 16,
        random@[i] as int / 16 >= 10 ==> id@[at] as int == 'a' as int + random@[i] as int / 16
            - 10,
        random@[i] as int % 16 < 10 ==> id@[at + 1] as int == '0' as int + random@[i] as int % 16,
        random@[i] as int % 16 >= 10 ==> id@[at + 1] as int == 'a' as int + random@[i] as int % 16
            - 10,
{
    assert((2 * i) / 2 == i && (2 * i + 1) / 2 == i && (2 * i) % 2 == 0 && (2 * i + 1) % 2 == 1);
    assert(id@[at] == correlation_id::uuid_digit(random@, 2 * i));
    assert(id@[at + 1] == correlation_id::uuid_digit(random@, 2 * i + 1));
}

/// Different random bytes give different identifiers, where they differ in a bit
/// that the version and the variant leave free.
pub proof fn law_identifiers_differ(
    a: [u8; 16],
    b: [u8; 16],
    now: SystemTime,
    shown_a: String,
    shown_b: String,
    i: int,
)
    requires
        call_ensures(request_id_from, (Some(a), now), shown_a),
        call_ensures(request_id_from, (Some(b), now), shown_b),
        0 <= i < 16,
        i != 6,
        i != 8,
        a@[i] != b@[i],
    ensures
        shown_a@ != shown_b@,
{
    let at = if i < 4 {
        2 * i
    } else if i < 6 {
        2 * i + 1
    } else if i < 8 {
        2 * i + 2
    } else if i < 10 {
        2 * i + 3
    } else {
        2 * i + 4
    };
    let (x, y) = (a@[i] as int, b@[i] as int);
    assert((2 * i) / 2 == i && (2 * i + 1) / 2 == i && (2 * i) % 2 == 0 && (2 * i + 1) % 2 == 1);
    assert(x / 16 != y / 16 || x % 16 != y % 16);
    assert(shown_a@[at] == correlation_id::uuid_digit(a@, 2 * i));
    assert(shown_b@[at] == correlation_id::uuid_digit(b@, 2 * i));
    assert(shown_a@[at + 1] == correlation_id::uuid_digit(a@, 2 * i + 1));
    assert(shown_b@[at + 1] == correlation_id::uuid_digit(b@, 2 * i + 1));
    assert(shown_a@[at] != shown_b@[at] || shown_a@[at + 1] != shown_b@[at + 1]);
}

/// Every request is assigned an identifier and keeps the client's own when that
/// is usable; both go on the response, the request's first.
pub proof fn law_identifiers_go_on_the_response(
    header: Option<&[u8]>,
    now: SystemTime,
    context: RequestContext,
    kept: Option<String>,
    headers: Vec<(&'static str, String)>,
)
    requires
        call_ensures(assign_request_context, (header, now), context),
        call_ensures(client_correlation_id, (header,), kept),
        call_ensures(response_headers, (&context,), headers),
    ensures
        context.client_correlation_id is Some <==> kept is Some,
        context.client_correlation_id matches Some(id) ==> id@ == kept.unwrap()@,
        headers@.len() == (if kept is Some {
            2int
        } else {
            1
        }),
        headers@[0].0@ == "X-Request-ID"@ && headers@[0].1@ == context.request_id@,
        kept matches Some(id) ==> headers@[1].0@ == "X-Correlation-ID"@ && headers@[1].1@ == id@,
{
}

} // verus!
