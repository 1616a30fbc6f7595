//! Typed values as the text that a cell shows and an editor hands back.
use vstd::prelude::*;
use vstd::string::*;

verus! {

/// The text of a boolean: `true` or `false`.
pub open spec fn bool_text(value: bool) -> Seq<char> {
    if value {
        seq!['t', 'r', 'u', 'e']
    } else {
        seq!['f', 'a', 'l', 's', 'e']
    }
}

/// The boolean that `text` spells, if it spells one.
pub open spec fn text_bool(text: Seq<char>) -> Option<bool> {
    if text == bool_text(true) {
        Some(true)
    } else if text == bool_text(false) {
        Some(false)
    } else {
        None
    }
}

/// A boolean reads back from its text.
pub proof fn bool_round_trip(value: bool)
    ensures
        text_bool(bool_text(value)) == Some(value),
{
    assert(bool_text(true)[0] != bool_text(false)[0]);
}

pub fn format_bool(value: bool) -> (text: String)
    ensures
        text@ == bool_text(value),
{
    proof {
        reveal_strlit("true");
        reveal_strlit("false");
    }
    let text = if value {
        String::from_str("true")
    } else {
        String::from_str("false")
    };
    assert(text@ =~= bool_text(value));
    text
}

pub fn parse_bool(text: &str) -> (value: Option<bool>)
    ensures
        value == text_bool(text@),
{
    proof {
        reveal_strlit("true");
        reveal_strlit("false");
    }
    assert("true"@ =~= bool_text(true));
    assert("false"@ =~= bool_text(false));
    let given = String::from_str(text);
    if given == String::from_str("true") {
        Some(true)
    } else if given == String::from_str("false") {
        Some(false)
    } else {
        None
    }
}

/// The character of the digit `d`.
pub open spec fn digit(d: int) -> char {
    (d + 48) as char
}

pub open spec fn is_digit(c: char) -> bool {
    '0' <= c <= '9'
}

/// The number that the digit `c` stands for.
pub open spec fn digit_value(c: char) -> int {
    c as int - 48
}

/// A natural number in decimal, without leading zeros.
pub open spec fn decimal(n: nat) -> Seq<char>
    decreases n,
{
    if n < 10 {
        seq![digit(n as int)]
    } else {
        decimal(n / 10).push(digit((n % 10) as int))
    }
}

/// An integer in decimal, with a minus sign if it is negative.
pub open spec fn int_text(value: int) -> Seq<char> {
    if value < 0 {
        seq!['-'] + decimal((-value) as nat)
    } else {
        decimal(value as nat)
    }
}

pub open spec fn all_digits(text: Seq<char>) -> bool {
    forall|i: int| 0 <= i < text.len() ==> is_digit(#[trigger] text[i])
}

/// The number that a sequence of digits spells, leading zeros allowed.
pub open spec fn digits_value(text: Seq<char>) -> nat
    decreases text.len(),
{
    if text.len() == 0 {
        0
    } else {
        (digits_value(text.drop_last()) * 10 + digit_value(text.last())) as nat
    }
}

/// The integer that `text` spells, if it spells one: one digit or more,
/// with or without a minus sign before them.
pub open spec fn text_int(text: Seq<char>) -> Option<int> {
    if text.len() > 0 && text[0] == '-' {
        let digits = text.subrange(1, text.len() as int);
        if digits.len() > 0 && all_digits(digits) {
            Some(-(digits_value(digits) as int))
        } else {
            None
        }
    } else if text.len() > 0 && all_digits(text) {
        Some(digits_value(text) as int)
    } else {
        None
    }
}

/// The integer of 64 bits that `text` spells, if it spells one.
pub open spec fn text_i64(text: Seq<char>) -> Option<i64> {
    match text_int(text) {
        Some(value) => if i64::MIN <= value <= i64::MAX {
            Some(value as i64)
        } else {
            None
        },
        None => None,
    }
}

/// The decimal of a number is made of digits, at least one, and spells the number.
pub proof fn decimal_spells(n: nat)
    ensures
        decimal(n).len() > 0,
        all_digits(decimal(n)),
        digits_value(decimal(n)) == n,
    decreases n,
{
    if n < 10 {
        let text = decimal(n);
        assert(text.drop_last().len() == 0);
        assert(digits_value(text) == digits_value(text.drop_last()) * 10 + digit_value(text.last()));
    } else {
        decimal_spells(n / 10);
        let text = decimal(n);
        assert(text.drop_last() =~= decimal(n / 10));
    }
}

/// An integer reads back from its text.
pub proof fn int_round_trip(value: int)
    ensures
        text_int(int_text(value)) == Some(value),
{
    if value < 0 {
        let digits = decimal((-value) as nat);
        decimal_spells((-value) as nat);
        let text = int_text(value);
        assert(text.subrange(1, text.len() as int) =~= digits);
    } else {
        decimal_spells(value as nat);
    }
}

/// An integer of 64 bits reads back from its text.
pub proof fn i64_round_trip(value: i64)
    ensures
        text_i64(int_text(value as int)) == Some(value),
{
    int_round_trip(value as int);
}

/// Leading digits spell no more than the whole.
pub proof fn digits_value_grows(text: Seq<char>, count: int)
    requires
        all_digits(text),
        0 <= count <= text.len(),
    ensures
        digits_value(text.take(count)) <= digits_value(text),
    decreases text.len() - count,
{
    if count < text.len() {
        digits_value_grows(text, count + 1);
        assert(text.take(count + 1).drop_last() =~= text.take(count));
    } else {
        assert(text.take(count) =~= text);
    }
}

/// The digit `d` as text.
fn digit_word(d: u8) -> (word: &'static str)
    requires
        d < 10,
    ensures
        word@ == seq![digit(d as int)],
{
    proof {
        reveal_strlit("0");
        reveal_strlit("1");
        reveal_strlit("2");
        reveal_strlit("3");
        reveal_strlit("4");
        reveal_strlit("5");
        reveal_strlit("6");
        reveal_strlit("7");
        reveal_strlit("8");
        reveal_strlit("9");
    }
    let word = match d {
        0 => "0",
        1 => "1",
        2 => "2",
        3 => "3",
        4 => "4",
        5 => "5",
        6 => "6",
        7 => "7",
        8 => "8",
        _ => "9",
    };
    assert(word@ =~= seq![digit(d as int)]);
    word
}

/// Appends `n` in decimal to `text`.
fn push_decimal(text: &mut String, n: u64)
    ensures
        final(text)@ == old(text)@ + decimal(n as nat),
    decreases n,
{
    if n >= 10 {
        push_decimal(text, n / 10);
    }
    text.append(digit_word((n % 10) as u8));
    assert(text@ =~= old(text)@ + decimal(n as nat));
}

pub fn format_int(value: i64) -> (text: String)
    ensures
        text@ == int_text(value as int),
{
    let mut text = String::new();
    if value < 0 {
        proof {
            reveal_strlit("-");
        }
        text.append("-");
        let magnitude: u64 = (-(value + 1)) as u64 + 1;
        push_decimal(&mut text, magnitude);
        assert(text@ =~= int_text(value as int));
    } else {
        push_decimal(&mut text, value as u64);
        assert(text@ =~= int_text(value as int));
    }
    text
}

/// Reads the digits of `text` from `start` on as a number up to `limit`.
fn parse_digits(text: &str, start: usize, limit: u64) -> (value: Option<u64>)
    requires
        start <= text@.len(),
        9 <= limit <= 0x8000_0000_0000_0000,
    ensures
        value == (if start < text@.len() && all_digits(text@.subrange(start as int, text@.len() as int))
            && digits_value(text@.subrange(start as int, text@.len() as int)) <= limit {
            Some(digits_value(text@.subrange(start as int, text@.len() as int)) as u64)
        } else {
            None
        }),
{
    let len = text.unicode_len();
    if start >= len {
        return None;
    }
    let ghost digits = text@.subrange(start as int, len as int);
    let mut total: u64 = 0;
    let mut i: usize = start;
    while i < len
        invariant
            start <= i <= len,
            len == text@.len(),
            digits == text@.subrange(start as int, len as int),
            9 <= limit <= 0x8000_0000_0000_0000,
            all_digits(digits.take(i - start)),
            total == digits_value(digits.take(i - start)),
            total <= limit,
        decreases len - i,
    {
        let c = text.get_char(i);
        assert(c == digits[i - start]);
        if !(c >= '0' && c <= '9') {
            return None;
        }
        let d: u64 = (c as u8 - 48) as u64;
        proof {
            assert(digits.take(i - start + 1).drop_last() =~= digits.take(i - start));
            assert(digits.take(i - start + 1).last() == c);
            assert(all_digits(digits.take(i - start + 1))) by {
                assert forall|j: int| 0 <= j < i - start + 1 implies is_digit(
                    #[trigger] digits.take(i - start + 1)[j],
                ) by {
                    if j < i - start {
                        assert(digits.take(i - start)[j] == digits[j]);
                    }
                }
            }
        }
        if total > (limit - d) / 10 {
            proof {
                if all_digits(digits) {
                    digits_value_grows(digits, i - start + 1);
                }
            }
            return None;
        }
        total = total * 10 + d;
        i += 1;
    }
    assert(digits.take(i - start) =~= digits);
    Some(total)
}

pub fn parse_int(text: &str) -> (value: Option<i64>)
    ensures
        value == text_i64(text@),
{
    let len = text.unicode_len();
    if len == 0 {
        return None;
    }
    if text.get_char(0) == '-' {
        match parse_digits(text, 1, 0x8000_0000_0000_0000) {
            Some(magnitude) => {
                if magnitude == 0x8000_0000_0000_0000 {
                    Some(i64::MIN)
                } else {
                    Some(-(magnitude as i64))
                }
            },
            None => None,
        }
    } else {
        assert(text@.subrange(0, text@.len() as int) =~= text@);
        match parse_digits(text, 0, 0x7fff_ffff_ffff_ffff) {
            Some(magnitude) => Some(magnitude as i64),
            None => None,
        }
    }
}

} // verus!
