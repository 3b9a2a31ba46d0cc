//! Text forms of scalar values, and comparisons of strings.
//!
//! The configuration store keeps every value as a string. A boolean is
//! written as `true` or `false`, an unsigned integer in decimal without sign
//! or leading zeros. Reading is a little wider than writing: an unsigned
//! integer may carry a `+` and leading zeros.

use vstd::prelude::*;
use vstd::string::*;
use vstd::utf8::{encode_utf8, is_ascii_chars, is_ascii_chars_encode_utf8};

verus! {

/// Whether two string slices hold the same characters.
///
/// Calls `==` of `str` from the standard library, which compares the two
/// slices character by character; the contract states that and nothing else.
#[verifier::external_body]
pub(crate) fn str_eq(a: &str, b: &str) -> (same: bool)
    ensures
        same == (a@ == b@),
{
    a == b
}

/// A character with an upper-case ASCII letter replaced by its lower-case
/// form.
pub open spec fn ascii_lower(c: char) -> char {
    if 'A' <= c && c <= 'Z' {
        ((c as u32) + 32) as char
    } else {
        c
    }
}

/// Whether two strings are equal once their ASCII letters are lower case.
pub open spec fn same_ignoring_ascii_case(a: Seq<char>, b: Seq<char>) -> bool {
    a.map_values(|c: char| ascii_lower(c)) == b.map_values(|c: char| ascii_lower(c))
}

/// Whether two string slices match when the case of ASCII letters is
/// ignored.
///
/// Calls `str::eq_ignore_ascii_case` of the standard library, documented as
/// the comparison of the two slices after `to_ascii_lowercase`, which maps
/// `A` to `Z` to `a` to `z` and leaves every other character as it is.
#[verifier::external_body]
pub(crate) fn str_eq_ignore_ascii_case(a: &str, b: &str) -> (same: bool)
    ensures
        same == same_ignoring_ascii_case(a@, b@),
{
    a.eq_ignore_ascii_case(b)
}

/// The text of a boolean.
pub open spec fn text_of_bool(value: bool) -> Seq<char> {
    if value {
        "true"@
    } else {
        "false"@
    }
}

/// The boolean that a text stands for, if it stands for one.
pub open spec fn bool_of_text(text: Seq<char>) -> Option<bool> {
    if text == "true"@ {
        Some(true)
    } else if text == "false"@ {
        Some(false)
    } else {
        None
    }
}

/// Whether a character is one of the ten decimal digits.
pub open spec fn is_digit(c: char) -> bool {
    '0' <= c && c <= '9'
}

/// The value of a decimal digit.
pub open spec fn digit_value(c: char) -> nat {
    (c as u32 - '0' as u32) as nat
}

/// The character of a digit's value.
pub open spec fn digit_char(d: nat) -> char
    recommends
        d < 10,
{
    (d + '0' as u32) as char
}

/// Whether a text is made of decimal digits only.
pub open spec fn all_digits(text: Seq<char>) -> bool {
    forall|i: int| 0 <= i < text.len() ==> is_digit(#[trigger] text[i])
}

/// The number that a text of decimal digits denotes.
pub open spec fn value_of_digits(digits: Seq<char>) -> nat
    decreases digits.len(),
{
    if digits.len() == 0 {
        0
    } else {
        value_of_digits(digits.drop_last()) * 10 + digit_value(digits.last())
    }
}

/// The decimal digits of a number, without leading zeros.
pub open spec fn digits_of(n: nat) -> Seq<char>
    decreases n,
{
    if n < 10 {
        seq![digit_char(n)]
    } else {
        digits_of(n / 10).push(digit_char(n % 10))
    }
}

/// The digits of a text that may start with one `+`.
pub open spec fn without_plus(text: Seq<char>) -> Seq<char> {
    if text.len() > 0 && text[0] == '+' {
        text.subrange(1, text.len() as int)
    } else {
        text
    }
}

/// The unsigned integer that a text stands for, if it stands for one: the
/// text is one or more decimal digits, after at most one `+`, and denotes a
/// number that 32 bits can hold.
pub open spec fn unsigned_of_text(text: Seq<char>) -> Option<u32> {
    let digits = without_plus(text);
    if digits.len() > 0 && all_digits(digits) && value_of_digits(digits) <= u32::MAX {
        Some(value_of_digits(digits) as u32)
    } else {
        None
    }
}

/// The text of an unsigned integer.
pub open spec fn text_of_unsigned(value: u32) -> Seq<char> {
    digits_of(value as nat)
}

/// A text of digits denotes at least what any of its beginnings denotes.
pub proof fn lemma_value_of_digits_grows(digits: Seq<char>, n: int)
    requires
        0 <= n <= digits.len(),
    ensures
        value_of_digits(digits.take(n)) <= value_of_digits(digits),
    decreases digits.len(),
{
    if n == digits.len() {
        assert(digits.take(n) =~= digits);
    } else {
        lemma_value_of_digits_grows(digits.drop_last(), n);
        assert(digits.drop_last().take(n) =~= digits.take(n));
    }
}

/// The digits of a number are digits, at least one, and denote the number.
pub proof fn lemma_digits_of_denotes(n: nat)
    ensures
        digits_of(n).len() > 0,
        all_digits(digits_of(n)),
        value_of_digits(digits_of(n)) == n,
    decreases n,
{
    if n < 10 {
        let s = seq![digit_char(n)];
        assert(s.drop_last() =~= Seq::<char>::empty());
        assert(value_of_digits(s.drop_last()) == 0);
        assert(s.last() == digit_char(n));
    } else {
        lemma_digits_of_denotes(n / 10);
        let head = digits_of(n / 10);
        let s = head.push(digit_char(n % 10));
        assert(s.drop_last() =~= head);
        assert(s.last() == digit_char(n % 10));
        assert forall|i: int| 0 <= i < s.len() implies is_digit(#[trigger] s[i]) by {
            if i < head.len() {
                assert(s[i] == head[i]);
            }
        }
    }
}

/// A text that stands for an unsigned integer is made of ASCII characters.
pub proof fn lemma_unsigned_text_is_ascii(text: Seq<char>)
    requires
        unsigned_of_text(text) is Some,
    ensures
        is_ascii_chars(text),
{
    let digits = without_plus(text);
    assert forall|i: int| 0 <= i < text.len() implies '\0' <= #[trigger] text[i] <= '\u{7f}' by {
        if text.len() > 0 && text[0] == '+' {
            if i > 0 {
                assert(is_digit(digits[i - 1]));
            }
        } else {
            assert(is_digit(digits[i]));
        }
    }
}

/// A boolean that is written and read back is the same boolean.
pub proof fn lemma_bool_text_round_trip(value: bool)
    ensures
        bool_of_text(text_of_bool(value)) == Some(value),
{
    reveal_strlit("true");
    reveal_strlit("false");
    assert("true"@.len() == 4);
    assert("false"@.len() == 5);
}

/// An unsigned integer that is written and read back is the same integer.
pub proof fn lemma_unsigned_text_round_trip(value: u32)
    ensures
        unsigned_of_text(text_of_unsigned(value)) == Some(value),
{
    lemma_digits_of_denotes(value as nat);
    let digits = digits_of(value as nat);
    assert(is_digit(digits[0]));
    assert(without_plus(digits) == digits);
}

/// Writes a boolean as the store keeps it.
pub fn format_bool(value: bool) -> (text: String)
    ensures
        text@ == text_of_bool(value),
{
    if value {
        String::from_str("true")
    } else {
        String::from_str("false")
    }
}

/// Reads a boolean as the store keeps it: `true` or `false`, and nothing
/// else.
pub fn parse_bool(text: &str) -> (value: Option<bool>)
    ensures
        value == bool_of_text(text@),
{
    if str_eq(text, "true") {
        Some(true)
    } else if str_eq(text, "false") {
        Some(false)
    } else {
        None
    }
}

/// The string of one decimal digit.
fn digit_str(d: u32) -> (text: &'static str)
    requires
        d < 10,
    ensures
        text@ == seq![digit_char(d as nat)],
{
    proof {
        reveal_strlit("0");
        reveal_strlit("1");
        reveal_strlit("2");
        reveal_strlit("3");
        reveal_strlit("4");
        reveal_strlit("5");
        reveal_strlit("6");
        reveal_strlit("7");
        reveal_strlit("8");
        reveal_strlit("9");
    }
    let text = if d == 0 {
        "0"
    } else if d == 1 {
        "1"
    } else if d == 2 {
        "2"
    } else if d == 3 {
        "3"
    } else if d == 4 {
        "4"
    } else if d == 5 {
        "5"
    } else if d == 6 {
        "6"
    } else if d == 7 {
        "7"
    } else if d == 8 {
        "8"
    } else {
        "9"
    };
    assert(text@ =~= seq![digit_char(d as nat)]);
    text
}

/// Writes an unsigned integer as the store keeps it: in decimal, without
/// sign or leading zeros.
pub fn format_unsigned(value: u32) -> (text: String)
    ensures
        text@ == text_of_unsigned(value),
    decreases value,
{
    if value < 10 {
        String::from_str(digit_str(value))
    } else {
        let mut text = format_unsigned(value / 10);
        text.append(digit_str(value % 10));
        assert(text@ =~= digits_of(value as nat));
        text
    }
}

/// Reads an unsigned integer: decimal digits, after at most one `+`, that
/// denote a number of at most 32 bits.
pub fn parse_unsigned(text: &str) -> (value: Option<u32>)
    ensures
        value == unsigned_of_text(text@),
{
    if !text.is_ascii() {
        proof {
            if unsigned_of_text(text@) is Some {
                lemma_unsigned_text_is_ascii(text@);
            }
        }
        return None;
    }
    let bytes = text.as_bytes();
    let len = bytes.len();
    proof {
        is_ascii_chars_encode_utf8(text@);
    }
    let start: usize = if len > 0 && bytes[0] == 43u8 {
        1
    } else {
        0
    };
    let ghost digits = without_plus(text@);
    proof {
        if len > 0 {
            assert('\0' <= text@[0] <= '\u{7f}');
            assert((text@[0] as u8 == 43u8) <==> text@[0] == '+');
        }
        assert(digits =~= text@.subrange(start as int, len as int));
    }
    if start == len {
        return None;
    }
    let mut total: u64 = 0;
    let mut i: usize = start;
    while i < len
        invariant
            is_ascii_chars(text@),
            bytes@ == encode_utf8(text@),
            len == bytes@.len(),
            len == text@.len(),
            start <= i <= len,
            digits == without_plus(text@),
            digits == text@.subrange(start as int, len as int),
            all_digits(digits.take(i - start)),
            total == value_of_digits(digits.take(i - start)),
            total <= u32::MAX,
        decreases len - i,
    {
        let b = bytes[i];
        proof {
            is_ascii_chars_encode_utf8(text@);
            assert('\0' <= text@[i as int] <= '\u{7f}');
            assert(b == text@[i as int] as u8);
            assert(digits[i - start] == text@[i as int]);
            assert(digits.take(i - start + 1).drop_last() =~= digits.take(i - start));
            assert(digits.take(i - start + 1).last() == digits[i - start]);
        }
        if b < 48u8 || b > 57u8 {
            assert(!is_digit(digits[i - start]));
            return None;
        }
        let d: u64 = (b - 48u8) as u64;
        assert(d == digit_value(digits[i - start]));
        total = total * 10 + d;
        assert(total == value_of_digits(digits.take(i - start + 1)));
        if total > 0xFFFF_FFFFu64 {
            proof {
                lemma_value_of_digits_grows(digits, i - start + 1);
            }
            return None;
        }
        assert forall|j: int| 0 <= j < i - start + 1 implies is_digit(
            #[trigger] digits.take(i - start + 1)[j],
        ) by {
            if j < i - start {
                assert(digits.take(i - start)[j] == digits[j]);
            }
        }
        i += 1;
    }
    assert(digits.take(len - start) =~= digits);
    Some(total as u32)
}

} // verus!
