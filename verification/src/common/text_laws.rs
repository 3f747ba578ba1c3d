//! What holds of texts: trimming, numbers in decimal, and header values.

use vstd::prelude::*;

use crate::common::text;
use crate::common::text::{
    char_is_whitespace, decimal, header_text, is_all_digits, parse_u32, parse_u64, same_text, trim,
};

verus! {

/// Whether a character is a space, a control that moves the cursor, or one of
/// Unicode's other blanks.
pub open spec fn is_blank(c: char) -> bool {
    ||| c == ' ' || '\t' <= c <= '\r' || c == '\u{85}' || c == '\u{a0}'
    ||| c == '\u{1680}' || '\u{2000}' <= c <= '\u{200a}' || c == '\u{2028}' || c == '\u{2029}'
    ||| c == '\u{202f}' || c == '\u{205f}' || c == '\u{3000}'
}

/// Whether every character is blank.
pub open spec fn all_blank(value: Seq<char>) -> bool {
    forall|i: int| 0 <= i < value.len() ==> is_blank(#[trigger] value[i])
}

/// The characters that count as whitespace are the blanks.
pub proof fn law_whitespace_is_blank(c: char)
    ensures
        text::is_whitespace(c) <==> is_blank(c),
{
}

proof fn lemma_trim_start(value: Seq<char>) -> (cut: int)
    ensures
        0 <= cut <= value.len(),
        text::trim_start(value) == value.skip(cut),
        all_blank(value.take(cut)),
        cut < value.len() ==> !is_blank(value[cut]),
    decreases value.len(),
{
    if value.len() > 0 && text::is_whitespace(value[0]) {
        let rest = value.skip(1);
        let cut = lemma_trim_start(rest);
        assert(rest.skip(cut) =~= value.skip(cut + 1));
        assert forall|i: int| 0 <= i < cut + 1 implies is_blank(
            #[trigger] value.take(cut + 1)[i],
        ) by {
            law_whitespace_is_blank(value[0]);
            if i > 0 {
                assert(rest.take(cut)[i - 1] == value[i]);
            }
        }
        cut + 1
    } else {
        assert(value.skip(0) =~= value);
        0
    }
}

proof fn lemma_trim_end(value: Seq<char>) -> (keep: int)
    ensures
        0 <= keep <= value.len(),
        text::trim_end(value) == value.take(keep),
        all_blank(value.skip(keep)),
        keep > 0 ==> !is_blank(value[keep - 1]),
    decreases value.len(),
{
    if value.len() > 0 && text::is_whitespace(value.last()) {
        let rest = value.drop_last();
        let keep = lemma_trim_end(rest);
        assert(rest.take(keep) =~= value.take(keep));
        assert forall|i: int| 0 <= i < value.len() - keep implies is_blank(
            #[trigger] value.skip(keep)[i],
        ) by {
            law_whitespace_is_blank(value.last());
            if i < rest.len() - keep {
                assert(rest.skip(keep)[i] == value[keep + i]);
            }
        }
        keep
    } else {
        assert(value.take(value.len() as int) =~= value);
        value.len() as int
    }
}

/// Trimming cuts blanks at both ends and nothing else: what is left stands in the
/// text between blanks, and neither begins nor ends with one.
pub proof fn law_trimming_cuts_outer_blanks(value: &str, inner: &str)
    requires
        call_ensures(trim, (value,), inner),
    ensures
        exists|from: int, to: int|
            0 <= from <= to <= value@.len() && inner@ == #[trigger] value@.subrange(from, to)
                && all_blank(value@.take(from)) && all_blank(value@.skip(to)),
        inner@.len() > 0 ==> !is_blank(inner@[0]) && !is_blank(inner@.last()),
{
    law_trimmed_text(value@);
}

/// The same of the text that trimming leaves.
pub proof fn law_trimmed_text(value: Seq<char>)
    ensures
        exists|from: int, to: int|
            0 <= from <= to <= value.len() && text::trimmed(value) == #[trigger] value.subrange(
                from,
                to,
            ) && all_blank(value.take(from)) && all_blank(value.skip(to)),
        text::trimmed(value).len() > 0 ==> !is_blank(text::trimmed(value)[0]) && !is_blank(
            text::trimmed(value).last(),
        ),
        text::trimmed(value).len() == 0 <==> all_blank(value),
        text::trimmed(value) == value <==> value.len() == 0 || (!is_blank(value[0]) && !is_blank(
            value.last(),
        )),
{
    let from = lemma_trim_start(value);
    let rest = value.skip(from);
    let keep = lemma_trim_end(rest);
    let inner = text::trimmed(value);
    let to = from + keep;
    assert(inner =~= value.subrange(from, to));
    assert forall|i: int| 0 <= i < value.len() - to implies is_blank(
        #[trigger] value.skip(to)[i],
    ) by {
        assert(rest.skip(keep)[i] == value[to + i]);
    }
    if keep > 0 {
        assert(inner[0] == value[from]);
        assert(inner.last() == rest[keep - 1]);
    }
    if inner.len() == 0 {
        assert forall|i: int| 0 <= i < value.len() implies is_blank(#[trigger] value[i]) by {
            if i < from {
                assert(value.take(from)[i] == value[i]);
            } else {
                assert(value.skip(to)[i - to] == value[i]);
            }
        }
    } else {
        assert(!is_blank(value[from]));
    }
    if value.len() > 0 && !is_blank(value[0]) && !is_blank(value.last()) {
        if from > 0 {
            assert(is_blank(value.take(from)[0]));
        }
        if to < value.len() {
            assert(is_blank(value.skip(to)[value.len() - to - 1]));
        }
        assert(inner =~= value);
    }
}

/// A text without blanks at its ends is left as it is, and every other is not.
pub proof fn law_only_outer_blanks_are_trimmed(value: Seq<char>)
    ensures
        text::trimmed(value) == value <==> value.len() == 0 || (!is_blank(value[0]) && !is_blank(
            value.last(),
        )),
{
    law_trimmed_text(value);
}

/// Nothing is left of a text exactly when all of it is blank.
pub proof fn law_blank_texts_are_trimmed_away(value: Seq<char>)
    ensures
        text::trimmed(value).len() == 0 <==> all_blank(value),
{
    law_trimmed_text(value);
}

/// A number written in decimal is made of digits, has no leading zero and reads
/// back as that number.
pub proof fn law_decimal_text_reads_back(n: nat)
    ensures
        text::decimal_text(n).len() > 0,
        text::all_digits(text::decimal_text(n)),
        text::digits_value(text::decimal_text(n)) == n,
        n > 0 ==> text::decimal_text(n)[0] != '0',
        n < 10 ==> text::decimal_text(n).len() == 1,
    decreases n,
{
    if n >= 10 {
        law_decimal_text_reads_back(n / 10);
        let shorter = text::decimal_text(n / 10);
        let longer = text::decimal_text(n);
        assert(longer.drop_last() =~= shorter);
        assert forall|i: int| 0 <= i < longer.len() implies '0' <= #[trigger] longer[i]
            <= '9' by {
            if i < shorter.len() {
                assert(longer[i] == shorter[i]);
            }
        }
        assert(longer[0] == shorter[0]);
    } else {
        assert(text::decimal_text(n).drop_last() =~= Seq::empty());
        assert(text::digits_value(text::decimal_text(n).drop_last()) == 0);
    }
}

/// A run of digits reads from left to right in base ten.
pub proof fn law_digits_read_in_base_ten(digits: Seq<char>, last: char)
    requires
        '0' <= last <= '9',
    ensures
        text::digits_value(Seq::empty()) == 0,
        text::digits_value(digits.push(last)) == 10 * text::digits_value(digits) + (last as int
            - '0' as int),
{
    assert(digits.push(last).drop_last() =~= digits);
}

/// Writing a number and reading it gives that number, with or without a plus
/// sign in front.
pub proof fn law_numbers_round_trip(
    n: u64,
    written: String,
    shown: &str,
    wide: Option<u64>,
    narrow: Option<u32>,
)
    requires
        call_ensures(decimal, (n,), written),
        shown@ == written@ || shown@ == seq!['+'] + written@,
        call_ensures(parse_u64, (shown,), wide),
        call_ensures(parse_u32, (shown,), narrow),
    ensures
        wide == Some(n),
        n <= u32::MAX ==> narrow == Some(n as u32),
        n > u32::MAX ==> narrow is None,
{
    law_decimal_text_reads_back(n as nat);
    let digits = text::decimal_text(n as nat);
    if shown@ == seq!['+'] + written@ {
        assert(shown@.skip(1) =~= digits);
    } else {
        assert('0' <= digits[0] <= '9');
    }
}

/// A text with a character that is neither a digit nor a leading plus sign is no
/// number, and neither is one without a digit.
pub proof fn law_other_texts_are_no_numbers(
    shown: &str,
    wide: Option<u64>,
    narrow: Option<u32>,
)
    requires
        call_ensures(parse_u64, (shown,), wide),
        call_ensures(parse_u32, (shown,), narrow),
        shown@.len() == 0 || shown@ == seq!['+'] || exists|i: int|
            0 <= i < shown@.len() && !('0' <= #[trigger] shown@[i] <= '9') && (i > 0 || shown@[i]
                != '+'),
    ensures
        wide is None,
        narrow is None,
{
    if shown@.len() > 0 && shown@ != seq!['+'] {
        let i = choose|i: int|
            0 <= i < shown@.len() && !('0' <= #[trigger] shown@[i] <= '9') && (i > 0 || shown@[i]
                != '+');
        if shown@[0] == '+' {
            assert(shown@.skip(1)[i - 1] == shown@[i]);
        }
    }
}

/// Texts are the same exactly when their characters are.
pub proof fn law_same_text_compares_characters(a: &str, b: &str, same: bool)
    requires
        call_ensures(same_text, (a, b), same),
    ensures
        same <==> a@.len() == b@.len() && forall|i: int|
            0 <= i < a@.len() ==> #[trigger] a@[i] == b@[i],
{
    if a@.len() == b@.len() && forall|i: int| 0 <= i < a@.len() ==> #[trigger] a@[i] == b@[i] {
        assert(a@ =~= b@);
    }
}

/// A header value reads as text, byte for byte, exactly when all of it is visible
/// ASCII, spaces or tabs.
pub proof fn law_header_text_is_byte_for_byte(bytes: &[u8], read: Option<&str>)
    requires
        call_ensures(header_text, (bytes,), read),
    ensures
        read is Some <==> forall|i: int|
            0 <= i < bytes@.len() ==> 0x20 <= #[trigger] bytes@[i] <= 0x7e || bytes@[i] == 0x09,
        read matches Some(shown) ==> shown@.len() == bytes@.len() && forall|i: int|
            0 <= i < bytes@.len() ==> (#[trigger] shown@[i]) as int == bytes@[i],
{
    if forall|i: int|
        0 <= i < bytes@.len() ==> 0x20 <= #[trigger] bytes@[i] <= 0x7e || bytes@[i] == 0x09 {
        assert forall|i: int| 0 <= i < bytes@.len() implies text::is_header_text_byte(
            #[trigger] bytes@[i],
        ) by {}
    }
    if let Some(shown) = read {
        assert forall|i: int| 0 <= i < bytes@.len() implies 0x20 <= #[trigger] bytes@[i] <= 0x7e
            || bytes@[i] == 0x09 by {
            assert(text::is_header_text_byte(bytes@[i]));
        }
    }
}

/// A character is whitespace exactly when it is blank, and a text is all digits
/// exactly when each of its characters is one.
pub proof fn law_characters_are_told_apart(c: char, white: bool, shown: &str, digits: bool)
    requires
        call_ensures(char_is_whitespace, (c,), white),
        call_ensures(is_all_digits, (shown,), digits),
    ensures
        white <==> is_blank(c),
        digits <==> forall|i: int| 0 <= i < shown@.len() ==> '0' <= #[trigger] shown@[i] <= '9',
{
    law_whitespace_is_blank(c);
}

} // verus!
