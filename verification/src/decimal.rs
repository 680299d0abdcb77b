//! Integers as decimal text, and back.

use crate::text::to_chars;
use vstd::prelude::*;

verus! {

/// The character of the decimal digit `d`.
pub open spec fn digit_char(d: int) -> char
    recommends
        0 <= d <= 9,
{
    ('0' as int + d) as char
}

/// The decimal digits of `n`, the highest first, with no leading zero but for
/// 0 itself.
pub open spec fn digits(n: nat) -> Seq<char>
    decreases n,
{
    if n < 10 {
        seq![digit_char(n as int)]
    } else {
        digits(n / 10).push(digit_char((n % 10) as int))
    }
}

/// The decimal text of `v`: its digits, after a minus sign where it is
/// negative.
pub open spec fn decimal(v: int) -> Seq<char> {
    if v < 0 {
        seq!['-'] + digits((-v) as nat)
    } else {
        digits(v as nat)
    }
}

pub open spec fn is_digit(c: char) -> bool {
    '0' <= c <= '9'
}

pub open spec fn all_digits(text: Seq<char>) -> bool {
    forall|i: int| 0 <= i < text.len() ==> is_digit(#[trigger] text[i])
}

/// The number that the digits of `text` denote; leading zeros count for
/// nothing, and no digits denote 0.
pub open spec fn digits_value(text: Seq<char>) -> int
    decreases text.len(),
{
    if text.len() == 0 {
        0
    } else {
        digits_value(text.drop_last()) * 10 + (text.last() as int - '0' as int)
    }
}

/// The integer that `text` denotes: one digit or more, after at most one sign,
/// and nothing else. `None` where `text` is not of that form.
pub open spec fn denoted(text: Seq<char>) -> Option<int> {
    if text.len() > 0 && text[0] == '-' {
        if text.len() > 1 && all_digits(text.skip(1)) {
            Some(-digits_value(text.skip(1)))
        } else {
            None
        }
    } else if text.len() > 0 && text[0] == '+' {
        if text.len() > 1 && all_digits(text.skip(1)) {
            Some(digits_value(text.skip(1)))
        } else {
            None
        }
    } else if text.len() > 0 && all_digits(text) {
        Some(digits_value(text))
    } else {
        None
    }
}

/// The digits of a text grow its value as they are read: no prefix denotes
/// more than the whole.
pub proof fn lemma_digits_value_grows(text: Seq<char>, n: int)
    requires
        all_digits(text),
        0 <= n <= text.len(),
    ensures
        0 <= digits_value(text.take(n)) <= digits_value(text),
    decreases text.len() - n,
{
    if n == text.len() {
        assert(text.take(n) =~= text);
        lemma_digits_value_not_negative(text);
    } else {
        lemma_digits_value_grows(text, n + 1);
        let longer = text.take(n + 1);
        assert(longer.drop_last() =~= text.take(n));
        assert(is_digit(text[n]));
        assert(longer.last() == text[n]);
        lemma_digits_value_not_negative(text.take(n));
    }
}

pub proof fn lemma_digits_value_not_negative(text: Seq<char>)
    requires
        all_digits(text),
    ensures
        0 <= digits_value(text),
    decreases text.len(),
{
    if text.len() > 0 {
        assert(is_digit(text.last()));
        lemma_digits_value_not_negative(text.drop_last());
    }
}

/// Appends the digits of `n` to `text`.
fn push_digits(n: u64, text: &mut String)
    ensures
        final(text)@ == old(text)@ + digits(n as nat),
    decreases n,
{
    if n >= 10 {
        push_digits(n / 10, text);
    }
    let d: u8 = (n % 10) as u8;
    let c: char = (48u8 + d) as char;
    assert(c == digit_char((n % 10) as int));
    text.push(c);
    assert(text@ =~= old(text)@ + digits(n as nat));
}

/// The decimal text of `v`.
pub fn i64_to_text(v: i64) -> (text: String)
    ensures
        text@ == decimal(v as int),
{
    let mut text = String::new();
    if v < 0 {
        text.push('-');
        let magnitude: u64 = ((-(v + 1)) as u64) + 1;
        push_digits(magnitude, &mut text);
        assert(text@ =~= decimal(v as int));
    } else {
        push_digits(v as u64, &mut text);
        assert(text@ =~= decimal(v as int));
    }
    text
}

/// The decimal text of `v`.
pub fn u32_to_text(v: u32) -> (text: String)
    ensures
        text@ == decimal(v as int),
{
    let mut text = String::new();
    push_digits(v as u64, &mut text);
    assert(text@ =~= decimal(v as int));
    text
}

/// Reads the digits `chars[from..]`: their value, or `None` where one of them
/// is no digit, there is none, or the value is above `limit`.
fn read_digits(chars: &Vec<char>, from: usize, limit: u64) -> (value: Option<u64>)
    requires
        from <= chars.len(),
        limit <= 0xffff_ffff,
    ensures
        match value {
            Some(v) => from < chars.len() && all_digits(chars@.skip(from as int)) && v
                == digits_value(chars@.skip(from as int)) && v <= limit,
            None => !(from < chars.len() && all_digits(chars@.skip(from as int)) && digits_value(
                chars@.skip(from as int),
            ) <= limit),
        },
{
    let ghost tail = chars@.skip(from as int);
    if from == chars.len() {
        return None;
    }
    let mut value: u64 = 0;
    let mut i: usize = from;
    while i < chars.len()
        invariant
            from <= i <= chars.len(),
            tail == chars@.skip(from as int),
            all_digits(tail.take(i - from)),
            value == digits_value(tail.take(i - from)),
            value <= limit,
            limit <= 0xffff_ffff,
        decreases chars.len() - i,
    {
        let c = chars[i];
        let ghost read = tail.take(i - from + 1);
        proof {
            assert(read.drop_last() =~= tail.take(i - from));
            assert(read.last() == c);
        }
        if c < '0' || c > '9' {
            assert(!is_digit(tail[i - from]));
            return None;
        }
        let d: u64 = (c as u64) - 48;
        assert(all_digits(read)) by {
            assert forall|k: int| 0 <= k < read.len() implies is_digit(#[trigger] read[k]) by {
                if k < read.len() - 1 {
                    assert(read[k] == tail.take(i - from)[k]);
                }
            }
        }
        value = value * 10 + d;
        if value > limit {
            proof {
                if all_digits(tail) {
                    lemma_digits_value_grows(tail, i - from + 1);
                }
            }
            return None;
        }
        i += 1;
    }
    assert(tail.take(i - from) =~= tail);
    Some(value)
}

/// The integer that `text` denotes, where it is one that fits in 32 bits with
/// a sign.
pub fn parse_i32(text: &str) -> (value: Option<i32>)
    ensures
        value == match denoted(text@) {
            Some(v) => if i32::MIN <= v <= i32::MAX {
                Some(v as i32)
            } else {
                None
            },
            None => None,
        },
        value is Some ==> denoted(text@) == Some(value->Some_0 as int),
{
    let chars = to_chars(text);
    if chars.len() > 0 && chars[0] == '-' {
        match read_digits(&chars, 1, 0x8000_0000) {
            Some(magnitude) => {
                let v: i64 = -(magnitude as i64);
                Some(v as i32)
            },
            None => None,
        }
    } else if chars.len() > 0 && chars[0] == '+' {
        match read_digits(&chars, 1, 0x7fff_ffff) {
            Some(magnitude) => Some(magnitude as i32),
            None => None,
        }
    } else {
        assert(chars@.skip(0) =~= chars@);
        match read_digits(&chars, 0, 0x7fff_ffff) {
            Some(magnitude) => Some(magnitude as i32),
            None => None,
        }
    }
}

/// What the standard library says of a text that it does not parse as a
/// number of 32 bits with a sign: that it is empty, holds what is no digit,
/// or denotes too large or too small a number.
pub uninterp spec fn integer_fault(text: Seq<char>) -> Seq<char>;

/// `str::parse::<i32>`, for the message of its error as its `Display`
/// writes it; the empty text where it parses. The message is a function of
/// the text alone; the contract gives it the name `integer_fault` and says
/// nothing of what it holds.
#[verifier::external_body]
fn fault_of(text: &str) -> (message: String)
    ensures
        message@ == integer_fault(text@),
{
    match text.parse::<i32>() {
        Ok(_) => String::new(),
        Err(error) => error.to_string(),
    }
}

/// The integer that `text` denotes, where it is one that fits in 32 bits
/// with a sign; else what the standard library says is wrong with `text`.
pub fn parse_i32_or_fault(text: &str) -> (value: Result<i32, String>)
    ensures
        match value {
            Ok(v) => denoted(text@) == Some(v as int),
            Err(message) => !(denoted(text@) is Some && i32::MIN <= denoted(text@)->Some_0
                <= i32::MAX) && message@ == integer_fault(text@),
        },
{
    match parse_i32(text) {
        Some(v) => Ok(v),
        None => Err(fault_of(text)),
    }
}

/// The integer that `text` denotes, where it has no minus sign and fits in 32
/// bits.
pub fn parse_u32(text: &str) -> (value: Option<u32>)
    ensures
        value == match denoted(text@) {
            Some(v) => if (text@[0] != '-') && v <= u32::MAX {
                Some(v as u32)
            } else {
                None
            },
            None => None,
        },
        value is Some ==> denoted(text@) == Some(value->Some_0 as int),
{
    let chars = to_chars(text);
    if chars.len() > 0 && chars[0] == '-' {
        None
    } else if chars.len() > 0 && chars[0] == '+' {
        match read_digits(&chars, 1, 0xffff_ffff) {
            Some(magnitude) => {
                proof {
                    lemma_digits_value_not_negative(chars@.skip(1));
                }
                Some(magnitude as u32)
            },
            None => None,
        }
    } else {
        assert(chars@.skip(0) =~= chars@);
        match read_digits(&chars, 0, 0xffff_ffff) {
            Some(magnitude) => {
                proof {
                    lemma_digits_value_not_negative(chars@);
                }
                Some(magnitude as u32)
            },
            None => None,
        }
    }
}

} // verus!
