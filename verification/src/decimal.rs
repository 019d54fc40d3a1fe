//! Integers written in decimal, as they stand in addresses and messages.

use vstd::prelude::*;
use vstd::string::*;

verus! {

/// The character that stands for the digit `d`, for `d` from 0 to 9.
pub open spec fn digit_char(d: int) -> char {
    if d == 0 {
        '0'
    } else if d == 1 {
        '1'
    } else if d == 2 {
        '2'
    } else if d == 3 {
        '3'
    } else if d == 4 {
        '4'
    } else if d == 5 {
        '5'
    } else if d == 6 {
        '6'
    } else if d == 7 {
        '7'
    } else if d == 8 {
        '8'
    } else {
        '9'
    }
}

/// A natural number in decimal: no sign, no leading zero, `"0"` for zero.
pub open spec fn decimal_nat(n: nat) -> Seq<char>
    decreases n,
{
    if n < 10 {
        seq![digit_char(n as int)]
    } else {
        decimal_nat(n / 10).push(digit_char((n % 10) as int))
    }
}

/// An integer in decimal: a minus sign before the digits of a negative number.
pub open spec fn decimal(n: int) -> Seq<char> {
    if n < 0 {
        seq!['-'] + decimal_nat((-n) as nat)
    } else {
        decimal_nat(n as nat)
    }
}

fn digit_text(d: u64) -> (text: &'static str)
    requires
        d < 10,
    ensures
        text@ == seq![digit_char(d as int)],
{
    proof {
        reveal_strlit("0");
        reveal_strlit("1");
        reveal_strlit("2");
        reveal_strlit("3");
        reveal_strlit("4");
        reveal_strlit("5");
        reveal_strlit("6");
        reveal_strlit("7");
        reveal_strlit("8");
        reveal_strlit("9");
    }
    let text = if d == 0 {
        "0"
    } else if d == 1 {
        "1"
    } else if d == 2 {
        "2"
    } else if d == 3 {
        "3"
    } else if d == 4 {
        "4"
    } else if d == 5 {
        "5"
    } else if d == 6 {
        "6"
    } else if d == 7 {
        "7"
    } else if d == 8 {
        "8"
    } else {
        "9"
    };
    assert(text@ =~= seq![digit_char(d as int)]);
    text
}

/// Appends `n` in decimal to `out`.
pub fn push_decimal_u64(out: &mut String, n: u64)
    ensures
        final(out)@ == old(out)@ + decimal_nat(n as nat),
    decreases n,
{
    if n >= 10 {
        push_decimal_u64(out, n / 10);
    }
    out.append(digit_text(n % 10));
    assert(out@ =~= old(out)@ + decimal_nat(n as nat));
}

/// Appends `n` in decimal to `out`, with a minus sign if it is negative.
pub fn push_decimal(out: &mut String, n: i64)
    ensures
        final(out)@ == old(out)@ + decimal(n as int),
{
    if n < 0 {
        proof {
            reveal_strlit("-");
        }
        out.append("-");
        let magnitude: u64 = if n == i64::MIN {
            9223372036854775808u64
        } else {
            (-n) as u64
        };
        push_decimal_u64(out, magnitude);
        assert(out@ =~= old(out)@ + decimal(n as int));
    } else {
        push_decimal_u64(out, n as u64);
    }
}

/// `n` in decimal.
pub fn to_decimal(n: i64) -> (text: String)
    ensures
        text@ == decimal(n as int),
{
    let mut text = String::new();
    push_decimal(&mut text, n);
    assert(text@ =~= decimal(n as int));
    text
}

/// Whether `c` is one of the ten digits `0` to `9`.
pub open spec fn is_digit(c: char) -> bool {
    '0' <= c && c <= '9'
}

/// The number that the digit `c` stands for.
pub open spec fn digit_value(c: char) -> int {
    c as int - '0' as int
}

/// Whether `text` holds digits only.
pub open spec fn all_digits(text: Seq<char>) -> bool {
    forall|i: int| 0 <= i < text.len() ==> is_digit(#[trigger] text[i])
}

/// The number that a text of digits stands for; 0 for the empty text.
pub open spec fn digits_value(digits: Seq<char>) -> int
    decreases digits.len(),
{
    if digits.len() == 0 {
        0
    } else {
        digits_value(digits.drop_last()) * 10 + digit_value(digits.last())
    }
}

/// The number that `digits` stands for, if it is one or more digits and the number
/// is at most `max`.
pub open spec fn spec_parse_digits(digits: Seq<char>, max: int) -> Option<int> {
    if digits.len() > 0 && all_digits(digits) && digits_value(digits) <= max {
        Some(digits_value(digits))
    } else {
        None
    }
}

/// The `i64` that `text` stands for: digits, after a `+` or a `-` if there is one,
/// and nothing else; with a number that an `i64` can hold.
pub open spec fn spec_parse_i64(text: Seq<char>) -> Option<i64> {
    if text.len() > 0 && text[0] == '-' {
        match spec_parse_digits(text.skip(1), 0x8000_0000_0000_0000) {
            Some(magnitude) => Some((-magnitude) as i64),
            None => None,
        }
    } else if text.len() > 0 && text[0] == '+' {
        match spec_parse_digits(text.skip(1), 0x7fff_ffff_ffff_ffff) {
            Some(magnitude) => Some(magnitude as i64),
            None => None,
        }
    } else {
        match spec_parse_digits(text, 0x7fff_ffff_ffff_ffff) {
            Some(magnitude) => Some(magnitude as i64),
            None => None,
        }
    }
}

/// The `u16` that `text` stands for: digits, after a `+` if there is one, and
/// nothing else; with a number that a `u16` can hold.
pub open spec fn spec_parse_u16(text: Seq<char>) -> Option<u16> {
    let digits = if text.len() > 0 && text[0] == '+' {
        text.skip(1)
    } else {
        text
    };
    match spec_parse_digits(digits, 0xffff) {
        Some(number) => Some(number as u16),
        None => None,
    }
}

/// A text of digits stands for a number that is not negative, and for no smaller
/// one than any of its beginnings does.
pub proof fn digits_value_grows(digits: Seq<char>, k: int)
    requires
        all_digits(digits),
        0 <= k <= digits.len(),
    ensures
        0 <= digits_value(digits.take(k)) <= digits_value(digits),
    decreases digits.len() - k,
{
    if k == digits.len() {
        assert(digits.take(k) =~= digits);
        digits_value_is_natural(digits);
    } else {
        digits_value_grows(digits, k + 1);
        let longer = digits.take(k + 1);
        assert(longer.drop_last() =~= digits.take(k));
        assert(longer.last() == digits[k]);
        assert(is_digit(digits[k]));
        digits_value_is_natural(digits.take(k));
    }
}

/// A text of digits stands for a number that is not negative.
pub proof fn digits_value_is_natural(digits: Seq<char>)
    requires
        all_digits(digits),
    ensures
        0 <= digits_value(digits),
    decreases digits.len(),
{
    if digits.len() > 0 {
        digits_value_is_natural(digits.drop_last());
        assert(is_digit(digits.last()));
    }
}

/// A text with a character beyond ASCII stands for no number.
proof fn not_ascii_is_no_number(text: Seq<char>)
    requires
        !vstd::utf8::is_ascii_chars(text),
    ensures
        spec_parse_i64(text) is None,
        spec_parse_u16(text) is None,
{
    let i = choose|i: int| 0 <= i < text.len() && !('\0' <= #[trigger] text[i] <= '\u{7f}');
    assert(!is_digit(text[i]));
    assert(text[i] != '-' && text[i] != '+');
    if i > 0 {
        assert(text.skip(1)[i - 1] == text[i]);
    }
}

/// Reads the digits that `text` holds from the place `start` on.
fn parse_digits(text: &str, start: usize, max: u64) -> (number: Option<u64>)
    requires
        is_ascii(text),
        start <= text@.len(),
        max >= 9,
    ensures
        match number {
            Some(n) => spec_parse_digits(text@.skip(start as int), max as int) == Some(n as int),
            None => spec_parse_digits(text@.skip(start as int), max as int) is None,
        },
{
    let len = text.unicode_len();
    let ghost digits = text@.skip(start as int);
    if start == len {
        return None;
    }
    let mut at: usize = start;
    let mut value: u64 = 0;
    while at < len
        invariant
            start <= at <= len,
            len == text@.len(),
            is_ascii(text),
            digits == text@.skip(start as int),
            max >= 9,
            all_digits(digits.take(at - start)),
            value == digits_value(digits.take(at - start)),
            value <= max,
        decreases len - at,
    {
        let byte = text.get_ascii(at);
        let ghost c = text@[at as int];
        let ghost longer = digits.take(at - start + 1);
        proof {
            assert(digits[at - start] == c);
            assert(longer.drop_last() =~= digits.take(at - start));
            assert(longer.last() == c);
            assert('\0' <= c <= '\u{7f}');
            assert(c as int == byte as int);
        }
        if byte < 48 || byte > 57 {
            assert(!is_digit(c));
            assert(!all_digits(digits));
            return None;
        }
        let d: u64 = (byte - 48) as u64;
        if value > (max - d) / 10 {
            proof {
                if all_digits(digits) {
                    digits_value_grows(digits, at - start + 1);
                }
            }
            return None;
        }
        value = value * 10 + d;
        assert(all_digits(longer)) by {
            assert forall|i: int| 0 <= i < longer.len() implies is_digit(#[trigger] longer[i]) by {
                if i < at - start {
                    assert(longer[i] == digits.take(at - start)[i]);
                }
            }
        }
        at = at + 1;
    }
    assert(digits.take(at - start) =~= digits);
    Some(value)
}

/// Reads an `i64` as `str::parse` does: digits, after a `+` or a `-` if there is
/// one, and nothing else. There is no number where the text is not of this form or
/// stands for a number that an `i64` cannot hold.
pub fn parse_i64(text: &str) -> (number: Option<i64>)
    ensures
        number == spec_parse_i64(text@),
{
    if !text.is_ascii() {
        proof {
            not_ascii_is_no_number(text@);
        }
        return None;
    }
    let len = text.unicode_len();
    if len > 0 && text.get_ascii(0) == 45 {
        assert(text@[0] == '-');
        match parse_digits(text, 1, 0x8000_0000_0000_0000) {
            Some(magnitude) => {
                if magnitude == 0x8000_0000_0000_0000 {
                    Some(i64::MIN)
                } else {
                    Some(-(magnitude as i64))
                }
            },
            None => None,
        }
    } else if len > 0 && text.get_ascii(0) == 43 {
        assert(text@[0] == '+');
        match parse_digits(text, 1, 0x7fff_ffff_ffff_ffff) {
            Some(magnitude) => Some(magnitude as i64),
            None => None,
        }
    } else {
        assert(text@.skip(0) =~= text@);
        assert(len > 0 ==> text@[0] != '-' && text@[0] != '+');
        match parse_digits(text, 0, 0x7fff_ffff_ffff_ffff) {
            Some(magnitude) => Some(magnitude as i64),
            None => None,
        }
    }
}

/// Reads a `u16` as `str::parse` does: digits, after a `+` if there is one, and
/// nothing else. There is no number where the text is not of this form or stands
/// for a number that a `u16` cannot hold.
pub fn parse_u16(text: &str) -> (number: Option<u16>)
    ensures
        number == spec_parse_u16(text@),
{
    if !text.is_ascii() {
        proof {
            not_ascii_is_no_number(text@);
        }
        return None;
    }
    let len = text.unicode_len();
    let start: usize = if len > 0 && text.get_ascii(0) == 43 {
        assert(text@[0] == '+');
        1
    } else {
        assert(len > 0 ==> text@[0] != '+');
        0
    };
    assert(text@.skip(0) =~= text@);
    match parse_digits(text, start, 0xffff) {
        Some(number) => Some(number as u16),
        None => None,
    }
}

} // verus!
