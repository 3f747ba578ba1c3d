//! Text helpers with exact contracts over character sequences.

use vstd::prelude::*;
use vstd::string::*;

verus! {

/// The characters that Unicode's `White_Space` property names.
pub open spec fn is_whitespace(c: char) -> bool {
    let code = c as u32;
    ||| 0x09 <= code <= 0x0d
    ||| code == 0x20
    ||| code == 0x85
    ||| code == 0xa0
    ||| code == 0x1680
    ||| 0x2000 <= code <= 0x200a
    ||| code == 0x2028
    ||| code == 0x2029
    ||| code == 0x202f
    ||| code == 0x205f
    ||| code == 0x3000
}

/// `text` without leading whitespace.
pub open spec fn trim_start(text: Seq<char>) -> Seq<char>
    decreases text.len(),
{
    if text.len() > 0 && is_whitespace(text[0]) {
        trim_start(text.skip(1))
    } else {
        text
    }
}

/// `text` without trailing whitespace.
pub open spec fn trim_end(text: Seq<char>) -> Seq<char>
    decreases text.len(),
{
    if text.len() > 0 && is_whitespace(text.last()) {
        trim_end(text.drop_last())
    } else {
        text
    }
}

/// `text` without leading and trailing whitespace.
pub open spec fn trimmed(text: Seq<char>) -> Seq<char> {
    trim_end(trim_start(text))
}

/// Equal texts, compared byte by byte.
pub fn same_text(a: &str, b: &str) -> (same: bool)
    ensures
        same == (a@ == b@),
{
    let x: &[u8] = a.as_bytes();
    let y: &[u8] = b.as_bytes();
    proof {
        vstd::utf8::encode_utf8_decode_utf8(a@);
        vstd::utf8::encode_utf8_decode_utf8(b@);
    }
    if x.len() != y.len() {
        return false;
    }
    let mut i: usize = 0;
    while i < x.len()
        invariant
            i <= x.len(),
            x@.len() == y@.len(),
            forall|k: int| 0 <= k < i ==> x@[k] == y@[k],
            x@ == a.spec_bytes(),
            y@ == b.spec_bytes(),
        decreases x.len() - i,
    {
        if x[i] != y[i] {
            return false;
        }
        i += 1;
    }
    assert(x@ =~= y@);
    true
}

/// The characters of `text` in order.
pub fn chars_of(text: &str) -> (chars: Vec<char>)
    ensures
        chars@ == text@,
{
    let mut chars: Vec<char> = Vec::new();
    for c in iter: text.chars()
        invariant
            chars@ == text@.take(iter.index()),
            iter.seq() == text@,
    {
        proof {
            assert(text@.take(iter.index() + 1) =~= text@.take(iter.index()).push(c));
        }
        chars.push(c);
    }
    assert(text@.take(text@.len() as int) =~= text@);
    chars
}

/// Whether `c` is whitespace.
pub fn char_is_whitespace(c: char) -> (white: bool)
    ensures
        white == is_whitespace(c),
{
    let code: u32 = c as u32;
    (0x09 <= code && code <= 0x0d) || code == 0x20 || code == 0x85 || code == 0xa0
        || code == 0x1680 || (0x2000 <= code && code <= 0x200a) || code == 0x2028 || code == 0x2029
        || code == 0x202f || code == 0x205f || code == 0x3000
}

/// `text` without leading and trailing whitespace.
pub fn trim(text: &str) -> (inner: &str)
    ensures
        inner@ == trimmed(text@),
{
    let chars: Vec<char> = chars_of(text);
    let mut from: usize = 0;
    assert(text@.skip(0) =~= text@);
    while from < chars.len() && char_is_whitespace(chars[from])
        invariant
            from <= chars.len(),
            chars@ == text@,
            trim_start(text@.skip(from as int)) == trim_start(text@),
        decreases chars.len() - from,
    {
        assert(text@.skip(from as int).skip(1) =~= text@.skip(from + 1));
        from += 1;
    }
    let mut to: usize = chars.len();
    assert(text@.subrange(from as int, to as int) =~= text@.skip(from as int));
    while to > from && char_is_whitespace(chars[to - 1])
        invariant
            from <= to <= chars.len(),
            chars@ == text@,
            trim_end(text@.subrange(from as int, to as int)) == trim_end(text@.skip(from as int)),
        decreases to,
    {
        assert(text@.subrange(from as int, to as int).drop_last() =~= text@.subrange(
            from as int,
            to - 1,
        ));
        to -= 1;
    }
    text.substring_char(from, to)
}

/// The decimal digit `d`.
pub open spec fn digit(d: nat) -> char {
    (48 + d) as char
}

/// `n` in decimal, without sign or leading zeros.
pub open spec fn decimal_text(n: nat) -> Seq<char>
    decreases n,
{
    if n < 10 {
        seq![digit(n)]
    } else {
        decimal_text(n / 10).push(digit(n % 10))
    }
}

/// True when every character is an ASCII digit.
pub open spec fn all_digits(text: Seq<char>) -> bool {
    forall|i: int| 0 <= i < text.len() ==> '0' <= #[trigger] text[i] <= '9'
}

/// The number that a run of decimal digits stands for.
pub open spec fn digits_value(text: Seq<char>) -> nat
    decreases text.len(),
{
    if text.len() == 0 {
        0
    } else {
        digits_value(text.drop_last()) * 10 + (text.last() as nat - 48) as nat
    }
}

/// The unsigned number that `text` writes: an optional `+`, then one or more
/// decimal digits, and nothing else. `None` for any other text and for a number
/// above `max`.
pub open spec fn unsigned_value(text: Seq<char>, max: nat) -> Option<nat> {
    let digits = if text.len() > 0 && text[0] == '+' {
        text.skip(1)
    } else {
        text
    };
    if digits.len() > 0 && all_digits(digits) && digits_value(digits) <= max {
        Some(digits_value(digits))
    } else {
        None
    }
}

fn digit_text(d: u8) -> (text: &'static str)
    requires
        d < 10,
    ensures
        text@ == seq![digit(d as nat)],
{
    proof {
        reveal_strlit("0");
        reveal_strlit("1");
        reveal_strlit("2");
        reveal_strlit("3");
        reveal_strlit("4");
        reveal_strlit("5");
        reveal_strlit("6");
        reveal_strlit("7");
        reveal_strlit("8");
        reveal_strlit("9");
    }
    let text: &'static str = match d {
        0 => "0",
        1 => "1",
        2 => "2",
        3 => "3",
        4 => "4",
        5 => "5",
        6 => "6",
        7 => "7",
        8 => "8",
        _ => "9",
    };
    assert(text@ =~= seq![digit(d as nat)]);
    text
}

/// `n` in decimal.
pub fn decimal(n: u64) -> (text: String)
    ensures
        text@ == decimal_text(n as nat),
    decreases n,
{
    let mut text: String = if n >= 10 {
        decimal(n / 10)
    } else {
        String::new()
    };
    let last: &'static str = digit_text((n % 10) as u8);
    text.append(last);
    assert(text@ =~= decimal_text(n as nat));
    text
}

proof fn lemma_digits_prefix(text: Seq<char>, n: int)
    requires
        0 <= n <= text.len(),
        all_digits(text),
    ensures
        digits_value(text.take(n)) <= digits_value(text),
    decreases text.len(),
{
    if n == text.len() {
        assert(text.take(n) =~= text);
    } else {
        assert(text.drop_last().take(n) =~= text.take(n));
        assert forall|i: int| 0 <= i < text.drop_last().len() implies '0'
            <= #[trigger] text.drop_last()[i] <= '9' by {
            assert(text.drop_last()[i] == text[i]);
        }
        lemma_digits_prefix(text.drop_last(), n);
    }
}

/// Whether every character is an ASCII digit.
pub fn is_all_digits(text: &str) -> (digits: bool)
    ensures
        digits == all_digits(text@),
{
    let chars: Vec<char> = chars_of(text);
    let mut i: usize = 0;
    while i < chars.len()
        invariant
            i <= chars.len(),
            chars@ == text@,
            forall|k: int| 0 <= k < i ==> '0' <= #[trigger] text@[k] <= '9',
        decreases chars.len() - i,
    {
        if chars[i] < '0' || chars[i] > '9' {
            assert(!('0' <= text@[i as int] <= '9'));
            return false;
        }
        i += 1;
    }
    true
}

/// Parses an unsigned decimal number, with an optional leading `+`.
pub fn parse_u64(text: &str) -> (number: Option<u64>)
    ensures
        match number {
            Some(n) => unsigned_value(text@, u64::MAX as nat) == Some(n as nat),
            None => unsigned_value(text@, u64::MAX as nat) is None,
        },
{
    let chars: Vec<char> = chars_of(text);
    let start: usize = if chars.len() > 0 && chars[0] == '+' {
        1
    } else {
        0
    };
    let ghost digits = if text@.len() > 0 && text@[0] == '+' {
        text@.skip(1)
    } else {
        text@
    };
    if start == chars.len() {
        return None;
    }
    let mut value: u64 = 0;
    let mut i: usize = start;
    while i < chars.len()
        invariant
            start <= i <= chars.len(),
            start <= 1,
            chars@ == text@,
            digits == text@.skip(start as int),
            digits == (if text@.len() > 0 && text@[0] == '+' {
                text@.skip(1)
            } else {
                text@
            }),
            digits.len() > 0,
            value == digits_value(digits.take(i - start)),
            forall|k: int| 0 <= k < i - start ==> '0' <= #[trigger] digits[k] <= '9',
        decreases chars.len() - i,
    {
        let c: char = chars[i];
        assert(digits[i - start] == c);
        if c < '0' || c > '9' {
            return None;
        }
        let d: u64 = (c as u32 - 48) as u64;
        proof {
            assert(digits.take(i - start + 1).drop_last() =~= digits.take(i - start));
            if all_digits(digits) {
                lemma_digits_prefix(digits, i - start + 1);
            }
        }
        match value.checked_mul(10) {
            Some(tens) => {
                match tens.checked_add(d) {
                    Some(next) => {
                        value = next;
                    },
                    None => {
                        return None;
                    },
                }
            },
            None => {
                return None;
            },
        }
        i += 1;
    }
    proof {
        assert(digits.take(digits.len() as int) =~= digits);
    }
    Some(value)
}

/// Parses an unsigned decimal number that fits in 32 bits.
pub fn parse_u32(text: &str) -> (number: Option<u32>)
    ensures
        match number {
            Some(n) => unsigned_value(text@, u32::MAX as nat) == Some(n as nat),
            None => unsigned_value(text@, u32::MAX as nat) is None,
        },
{
    match parse_u64(text) {
        Some(n) => {
            if n <= u32::MAX as u64 {
                Some(n as u32)
            } else {
                None
            }
        },
        None => None,
    }
}

/// `std::str::from_utf8`: the text that `bytes` encode, or nothing when they
/// are not valid UTF-8.
#[verifier::external_body]
pub(crate) fn utf8_text(bytes: &[u8]) -> (text: Option<&str>)
    ensures
        text is Some == vstd::utf8::valid_utf8(bytes@),
        text matches Some(text) ==> text.spec_bytes() == bytes@,
{
    std::str::from_utf8(bytes).ok()
}

/// The text of an optional string.
pub open spec fn optional_text(value: Option<String>) -> Option<Seq<char>> {
    match value {
        Some(value) => Some(value@),
        None => None,
    }
}

/// The bytes of an optional header.
pub open spec fn optional_bytes(header: Option<&[u8]>) -> Option<Seq<u8>> {
    match header {
        Some(bytes) => Some(bytes@),
        None => None,
    }
}

/// A byte that may stand in a header read as text: visible ASCII, space or tab.
pub open spec fn is_header_text_byte(b: u8) -> bool {
    32 <= b <= 126 || b == 9
}

/// The text of a header value, when all its bytes may stand in one.
pub open spec fn header_text_of(bytes: Seq<u8>) -> Option<Seq<char>> {
    if forall|i: int| 0 <= i < bytes.len() ==> is_header_text_byte(#[trigger] bytes[i]) {
        Some(Seq::new(bytes.len(), |i: int| bytes[i] as char))
    } else {
        None
    }
}

/// Reads a raw header value as text.
pub fn header_text(bytes: &[u8]) -> (text: Option<&str>)
    ensures
        match text {
            Some(text) => header_text_of(bytes@) == Some(text@),
            None => header_text_of(bytes@) is None,
        },
{
    let mut i: usize = 0;
    while i < bytes.len()
        invariant
            i <= bytes.len(),
            forall|k: int| 0 <= k < i ==> is_header_text_byte(#[trigger] bytes@[k]),
        decreases bytes.len() - i,
    {
        let b: u8 = bytes[i];
        if !((b >= 32 && b <= 126) || b == 9) {
            assert(!is_header_text_byte(bytes@[i as int]));
            return None;
        }
        i += 1;
    }
    let text: Option<&str> = utf8_text(bytes);
    proof {
        let chars = Seq::new(bytes@.len(), |i: int| bytes@[i] as char);
        assert(vstd::utf8::is_ascii_chars(chars));
        vstd::utf8::is_ascii_chars_encode_utf8(chars);
        vstd::utf8::encode_utf8_valid_utf8(chars);
        vstd::utf8::encode_utf8_decode_utf8(chars);
        assert(vstd::utf8::encode_utf8(chars) =~= bytes@);
        if let Some(text) = text {
            vstd::utf8::encode_utf8_decode_utf8(text@);
        }
    }
    text
}

} // verus!
