//! Reading unsigned decimal numbers.

use crate::text::{decimal, digit_char};
use vstd::prelude::*;
use vstd::std_specs::iter::IteratorSpec;
use vstd::string::*;

verus! {

/// Why a text is not a number that fits.
#[derive(Clone, Copy, Debug, PartialEq, Eq, Structural)]
pub enum NumberError {
    /// The text is empty.
    Empty,
    /// A character other than a decimal digit stands where a digit must.
    InvalidDigit,
    /// The digits read so far already exceed the largest admitted value.
    Overflow,
}

/// The value of a decimal digit, `None` for any other character.
pub open spec fn digit_value(c: char) -> Option<nat> {
    if c == '0' {
        Some(0)
    } else if c == '1' {
        Some(1)
    } else if c == '2' {
        Some(2)
    } else if c == '3' {
        Some(3)
    } else if c == '4' {
        Some(4)
    } else if c == '5' {
        Some(5)
    } else if c == '6' {
        Some(6)
    } else if c == '7' {
        Some(7)
    } else if c == '8' {
        Some(8)
    } else if c == '9' {
        Some(9)
    } else {
        None
    }
}

/// Reads `digits` from left to right as a number of at most `max` and stops
/// at the first character that is no digit or that carries the value past
/// `max`; of the two, the bad character is reported first.
pub open spec fn scan_digits(digits: Seq<char>, max: nat) -> Result<nat, NumberError>
    decreases digits.len(),
{
    if digits.len() == 0 {
        Ok(0)
    } else {
        match scan_digits(digits.drop_last(), max) {
            Err(e) => Err(e),
            Ok(value) => match digit_value(digits.last()) {
                None => Err(NumberError::InvalidDigit),
                Some(d) => if value * 10 + d > max {
                    Err(NumberError::Overflow)
                } else {
                    Ok(value * 10 + d)
                },
            },
        }
    }
}

/// The part of `text` that must consist of digits: all of it, but for one
/// leading plus sign that something follows.
pub open spec fn digits_of(text: Seq<char>) -> Seq<char> {
    if text.len() > 1 && text[0] == '+' {
        text.skip(1)
    } else {
        text
    }
}

/// The number that `text` writes, if it is one of at most `max`.
pub open spec fn parse_unsigned(text: Seq<char>, max: nat) -> Result<nat, NumberError> {
    if text.len() == 0 {
        Err(NumberError::Empty)
    } else {
        scan_digits(digits_of(text), max)
    }
}

/// `parse_unsigned` with the value as a machine integer.
pub open spec fn parsed_as_u64(text: Seq<char>, max: u64) -> Result<u64, NumberError> {
    match parse_unsigned(text, max as nat) {
        Ok(value) => Ok(value as u64),
        Err(e) => Err(e),
    }
}

/// Once a prefix has failed, every longer text fails the same way.
pub proof fn lemma_scan_failure_persists(digits: Seq<char>, k: int, max: nat)
    requires
        0 <= k <= digits.len(),
        scan_digits(digits.take(k), max) is Err,
    ensures
        scan_digits(digits, max) == scan_digits(digits.take(k), max),
    decreases digits.len() - k,
{
    if k == digits.len() {
        assert(digits.take(k) =~= digits);
    } else {
        assert(digits.take(k + 1).drop_last() =~= digits.take(k));
        lemma_scan_failure_persists(digits, k + 1, max);
    }
}

/// A text that is read as a number consists of decimal digits alone, and
/// the number is at most `max`.
pub proof fn lemma_scan_ok_bounded(digits: Seq<char>, max: nat)
    ensures
        scan_digits(digits, max) matches Ok(value) ==> value <= max && forall|i: int|
            0 <= i < digits.len() ==> digit_value(#[trigger] digits[i]) is Some,
    decreases digits.len(),
{
    if digits.len() > 0 {
        lemma_scan_ok_bounded(digits.drop_last(), max);
        if scan_digits(digits, max) is Ok {
            assert forall|i: int| 0 <= i < digits.len() implies digit_value(
                #[trigger] digits[i],
            ) is Some by {
                if i < digits.len() - 1 {
                    assert(digits.drop_last()[i] == digits[i]);
                }
            }
        }
    }
}

/// What is written as a decimal numeral is read back as the same number,
/// wherever that number is admitted.
pub proof fn lemma_decimal_reads_back(n: nat, max: nat)
    requires
        n <= max,
    ensures
        parse_unsigned(decimal(n), max) == Ok::<nat, NumberError>(n),
        digits_of(decimal(n)) == decimal(n),
        scan_digits(decimal(n), max) == Ok::<nat, NumberError>(n),
    decreases n,
{
    lemma_decimal_starts_with_digit(n);
    if n < 10 {
        assert(decimal(n).drop_last() =~= Seq::<char>::empty());
        assert(scan_digits(decimal(n).drop_last(), max) == Ok::<nat, NumberError>(0));
    } else {
        lemma_decimal_reads_back(n / 10, max);
        assert(decimal(n).drop_last() =~= decimal(n / 10));
        assert(decimal(n).last() == digit_char((n % 10) as int));
    }
}

/// A decimal numeral is not empty and begins with a digit.
proof fn lemma_decimal_starts_with_digit(n: nat)
    ensures
        decimal(n).len() > 0,
        digit_value(decimal(n)[0]) is Some,
    decreases n,
{
    if n >= 10 {
        lemma_decimal_starts_with_digit(n / 10);
        assert(decimal(n)[0] == decimal(n / 10)[0]);
    }
}

fn digit_of(c: char) -> (d: Option<u64>)
    ensures
        match d {
            Some(v) => digit_value(c) == Some(v as nat),
            None => digit_value(c) is None,
        },
{
    if c == '0' {
        Some(0)
    } else if c == '1' {
        Some(1)
    } else if c == '2' {
        Some(2)
    } else if c == '3' {
        Some(3)
    } else if c == '4' {
        Some(4)
    } else if c == '5' {
        Some(5)
    } else if c == '6' {
        Some(6)
    } else if c == '7' {
        Some(7)
    } else if c == '8' {
        Some(8)
    } else if c == '9' {
        Some(9)
    } else {
        None
    }
}

/// Reads `text` as an unsigned decimal number of at most `max`.
pub fn parse_bounded(text: &str, max: u64) -> (r: Result<u64, NumberError>)
    ensures
        r == parsed_as_u64(text@, max),
{
    broadcast use vstd::string::group_string_axioms;

    let mut chars = text.chars();
    let mut pending: Option<char> = chars.next();
    if pending.is_none() {
        return Err(NumberError::Empty);
    }
    assert(pending == Some(text@[0]));
    assert(chars.remaining() =~= text@.skip(1));
    if pending == Some('+') {
        let second = chars.next();
        if second.is_some() {
            pending = second;
            assert(chars.remaining() =~= text@.skip(2));
        }
    }
    let ghost digits = digits_of(text@);
    let ghost mut done: int = 0;
    assert(pending == Some(digits[0]));
    assert(chars.remaining() =~= digits.skip(1));
    let mut value: u64 = 0;
    loop
        invariant
            0 <= done <= digits.len(),
            digits == digits_of(text@),
            text@.len() > 0,
            value <= max,
            scan_digits(digits.take(done), max as nat) == Ok::<nat, NumberError>(value as nat),
            pending is Some ==> done < digits.len() && pending == Some(digits[done])
                && chars.remaining() =~= digits.skip(done + 1),
            pending is None ==> done == digits.len(),
            chars.obeys_prophetic_iter_laws(),
        decreases digits.len() - done,
    {
        let c = match pending {
            None => {
                assert(digits.take(done) =~= digits);
                return Ok(value);
            },
            Some(c) => c,
        };
        assert(digits.take(done + 1).drop_last() =~= digits.take(done));
        assert(digits.take(done + 1).last() == c);
        let d = match digit_of(c) {
            None => {
                proof {
                    lemma_scan_failure_persists(digits, done + 1, max as nat);
                }
                return Err(NumberError::InvalidDigit);
            },
            Some(d) => d,
        };
        if max < d || value > (max - d) / 10 {
            proof {
                lemma_scan_failure_persists(digits, done + 1, max as nat);
            }
            return Err(NumberError::Overflow);
        }
        value = value * 10 + d;
        pending = chars.next();
        proof {
            done = done + 1;
        }
    }
}

} // verus!
