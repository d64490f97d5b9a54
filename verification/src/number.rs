//! Decimal text of whole numbers.

use vstd::prelude::*;
use vstd::string::StringExecFns;

verus! {

/// The ten decimal digits.
pub open spec fn is_digit(c: char) -> bool {
    '0' <= c <= '9'
}

/// The number that a digit writes.
pub open spec fn digit_value(c: char) -> nat {
    (c as nat - '0' as nat) as nat
}

/// The digit that writes `value`, a number below ten.
pub open spec fn digit_char(value: nat) -> char {
    (value + '0' as nat) as char
}

/// Whether `text` consists of digits alone.
pub open spec fn all_digits(text: Seq<char>) -> bool {
    forall|i: int| 0 <= i < text.len() ==> is_digit(#[trigger] text[i])
}

/// The number that a sequence of digits writes in base ten.
pub open spec fn decimal_value(digits: Seq<char>) -> nat
    decreases digits.len(),
{
    if digits.len() == 0 {
        0
    } else {
        decimal_value(digits.drop_last()) * 10 + digit_value(digits.last())
    }
}

/// The digits that write `number` in base ten, without leading zeros.
pub open spec fn decimal_digits(number: nat) -> Seq<char>
    decreases number,
{
    if number < 10 {
        seq![digit_char(number)]
    } else {
        decimal_digits(number / 10).push(digit_char(number % 10))
    }
}

/// Whether `text` opens with a sign that `negative_allowed` admits.
pub open spec fn has_sign(text: Seq<char>, negative_allowed: bool) -> bool {
    text.len() > 0 && (text[0] == '+' || (negative_allowed && text[0] == '-'))
}

/// The digits of an unsigned number's text: all of it but an optional
/// leading plus sign.
pub open spec fn unsigned_digits(text: Seq<char>) -> Seq<char> {
    if has_sign(text, false) {
        text.subrange(1, text.len() as int)
    } else {
        text
    }
}

/// The digits of a signed number's text: all of it but an optional leading
/// sign.
pub open spec fn signed_digits(text: Seq<char>) -> Seq<char> {
    if has_sign(text, true) {
        text.subrange(1, text.len() as int)
    } else {
        text
    }
}

/// What `text` reads as an unsigned 32-bit number: an optional plus sign and
/// then at least one digit, nothing else, and a value that fits.
pub open spec fn parse_decimal(text: Seq<char>) -> Option<u32> {
    let digits = unsigned_digits(text);
    if digits.len() > 0 && all_digits(digits) && decimal_value(digits) <= u32::MAX {
        Some(decimal_value(digits) as u32)
    } else {
        None
    }
}

/// What `text` reads as a signed 32-bit number: an optional sign and then at
/// least one digit, nothing else, and a value that fits.
pub open spec fn parse_signed(text: Seq<char>) -> Option<i32> {
    let digits = signed_digits(text);
    let value = if text.len() > 0 && text[0] == '-' {
        -(decimal_value(digits) as int)
    } else {
        decimal_value(digits) as int
    };
    if digits.len() > 0 && all_digits(digits) && i32::MIN <= value <= i32::MAX {
        Some(value as i32)
    } else {
        None
    }
}

/// A longer digit sequence never writes a smaller number than its prefix.
pub proof fn lemma_decimal_value_monotonic(digits: Seq<char>, n: int)
    requires
        0 <= n <= digits.len(),
    ensures
        decimal_value(digits.subrange(0, n)) <= decimal_value(digits),
    decreases digits.len() - n,
{
    if n < digits.len() {
        let longer = digits.subrange(0, n + 1);
        assert(longer.drop_last() =~= digits.subrange(0, n));
        lemma_decimal_value_monotonic(digits, n + 1);
    } else {
        assert(digits.subrange(0, n) =~= digits);
    }
}

/// The digits of a number consist of digits and write that number.
pub proof fn lemma_decimal_digits(number: nat)
    ensures
        decimal_digits(number).len() > 0,
        all_digits(decimal_digits(number)),
        decimal_value(decimal_digits(number)) == number,
    decreases number,
{
    let digits = decimal_digits(number);
    if number < 10 {
        assert(decimal_value(digits.drop_last()) == 0);
    } else {
        lemma_decimal_digits(number / 10);
        assert(digits.drop_last() =~= decimal_digits(number / 10));
        assert forall|i: int| 0 <= i < digits.len() implies is_digit(#[trigger] digits[i]) by {}
    }
}

/// A number written out and read again is the number itself.
pub proof fn lemma_parse_decimal_digits(number: u32)
    ensures
        parse_decimal(decimal_digits(number as nat)) == Some(number),
{
    lemma_decimal_digits(number as nat);
    assert(!has_sign(decimal_digits(number as nat), false)) by {
    }
}

/// Reads the characters of `text` from `start` on as digits. The answer is
/// the number they write, where there is at least one character, all are
/// digits, and the number does not exceed `limit`.
fn parse_digits(text: &str, start: usize, limit: u64) -> (number: Option<u64>)
    requires
        start <= text@.len(),
        limit <= u32::MAX + 1,
    ensures
        ({
            let digits = text@.subrange(start as int, text@.len() as int);
            number == if digits.len() > 0 && all_digits(digits) && decimal_value(digits) <= limit {
                Some(decimal_value(digits) as u64)
            } else {
                None
            }
        }),
{
    let len = text.unicode_len();
    let ghost digits = text@.subrange(start as int, len as int);
    if start == len {
        return None;
    }
    let mut value: u64 = 0;
    let mut i: usize = start;
    while i < len
        invariant
            start <= i <= len,
            len == text@.len(),
            limit <= u32::MAX + 1,
            digits == text@.subrange(start as int, len as int),
            all_digits(digits.subrange(0, i - start)),
            value == decimal_value(digits.subrange(0, i - start)),
            value <= limit,
        decreases len - i,
    {
        let c = text.get_char(i);
        let ghost prefix = digits.subrange(0, i - start + 1);
        assert(prefix.drop_last() =~= digits.subrange(0, i - start));
        assert(prefix.last() == c);
        if c < '0' || c > '9' {
            return None;
        }
        let d: u64 = ((c as u32) - ('0' as u32)) as u64;
        proof {
            lemma_decimal_value_monotonic(digits, i - start + 1);
        }
        if value * 10 + d > limit {
            return None;
        }
        value = value * 10 + d;
        i = i + 1;
        assert forall|j: int| 0 <= j < prefix.len() implies is_digit(#[trigger] prefix[j]) by {}
    }
    assert(digits.subrange(0, len - start) =~= digits);
    Some(value)
}

/// Reads `text` as an unsigned 32-bit number.
pub fn parse_u32(text: &str) -> (number: Option<u32>)
    ensures
        number == parse_decimal(text@),
{
    let len = text.unicode_len();
    let start: usize = if len > 0 && text.get_char(0) == '+' {
        1
    } else {
        0
    };
    assert(unsigned_digits(text@) =~= text@.subrange(start as int, len as int));
    match parse_digits(text, start, 0xffff_ffff) {
        Some(value) => Some(value as u32),
        None => None,
    }
}

/// Reads `text` as a signed 32-bit number.
pub fn parse_i32(text: &str) -> (number: Option<i32>)
    ensures
        number == parse_signed(text@),
{
    let len = text.unicode_len();
    let first = if len > 0 {
        text.get_char(0)
    } else {
        '0'
    };
    let negative = len > 0 && first == '-';
    let start: usize = if len > 0 && (first == '+' || first == '-') {
        1
    } else {
        0
    };
    assert(signed_digits(text@) =~= text@.subrange(start as int, len as int));
    if negative {
        match parse_digits(text, start, 0x8000_0000) {
            Some(value) => {
                if value == 0x8000_0000 {
                    Some(i32::MIN)
                } else {
                    Some(-(value as i32))
                }
            },
            None => None,
        }
    } else {
        match parse_digits(text, start, 0x7fff_ffff) {
            Some(value) => Some(value as i32),
            None => None,
        }
    }
}

/// The text of one digit.
fn digit_text(value: u32) -> (text: &'static str)
    requires
        value < 10,
    ensures
        text@ == seq![digit_char(value as nat)],
{
    proof {
        reveal_strlit("0");
        reveal_strlit("1");
        reveal_strlit("2");
        reveal_strlit("3");
        reveal_strlit("4");
        reveal_strlit("5");
        reveal_strlit("6");
        reveal_strlit("7");
        reveal_strlit("8");
        reveal_strlit("9");
    }
    let text = match value {
        0 => "0",
        1 => "1",
        2 => "2",
        3 => "3",
        4 => "4",
        5 => "5",
        6 => "6",
        7 => "7",
        8 => "8",
        _ => "9",
    };
    text
}

/// Writes `number` in base ten.
pub fn decimal_text(number: u32) -> (text: String)
    ensures
        text@ == decimal_digits(number as nat),
        parse_decimal(text@) == Some(number),
{
    proof {
        lemma_parse_decimal_digits(number);
    }
    let mut text = String::from_str(digit_text(number % 10));
    let mut rest: u32 = number / 10;
    while rest > 0
        invariant
            rest > 0 ==> decimal_digits(rest as nat) + text@ == decimal_digits(number as nat),
            rest == 0 ==> text@ == decimal_digits(number as nat),
        decreases rest,
    {
        text = String::from_str(digit_text(rest % 10)).concat(text.as_str());
        rest = rest / 10;
    }
    text
}

} // verus!
