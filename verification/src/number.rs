//! Numbers written in text.

use vstd::prelude::*;

verus! {

/// The value of a digit, in any base up to 16.
pub open spec fn digit_value(byte: u8) -> Option<nat> {
    if '0' as u8 <= byte <= '9' as u8 {
        Some((byte - '0' as u8) as nat)
    } else if 'a' as u8 <= byte <= 'f' as u8 {
        Some((byte - 'a' as u8 + 10) as nat)
    } else if 'A' as u8 <= byte <= 'F' as u8 {
        Some((byte - 'A' as u8 + 10) as nat)
    } else {
        None
    }
}

/// Whether a byte is a digit in the given base.
pub open spec fn is_digit(byte: u8, base: nat) -> bool {
    digit_value(byte) matches Some(value) && value < base
}

/// Whether a text is made of digits of the given base, and is not empty.
pub open spec fn is_numeral(text: Seq<u8>, base: nat) -> bool {
    &&& text.len() > 0
    &&& forall|i: int| 0 <= i < text.len() ==> is_digit(#[trigger] text[i], base)
}

/// The value of a numeral, most significant digit first.
pub open spec fn numeral_value(text: Seq<u8>, base: nat) -> nat
    decreases text.len(),
{
    if text.len() == 0 {
        0
    } else {
        numeral_value(text.drop_last(), base) * base + digit_value(text.last()).unwrap_or(0)
    }
}

/// A text without the given sign in front of it, where it has one.
pub open spec fn without_sign(text: Seq<u8>, sign: char) -> Seq<u8> {
    if text.len() > 0 && text[0] == sign as u8 {
        text.skip(1)
    } else {
        text
    }
}

/// The number that `input` gives in decimal digits, where it fits a byte.
pub open spec fn byte_number(input: Seq<u8>) -> Option<u8> {
    if is_numeral(input, 10) && numeral_value(input, 10) <= u8::MAX {
        Some(numeral_value(input, 10) as u8)
    } else {
        None
    }
}

/// The number that `text` gives in decimal digits, behind a `+` or a `-` or not.
pub open spec fn signed_number(text: Seq<u8>) -> Option<int> {
    if text.len() > 0 && text[0] == '-' as u8 {
        if is_numeral(text.skip(1), 10) {
            Some(-numeral_value(text.skip(1), 10))
        } else {
            None
        }
    } else {
        let digits = without_sign(text, '+');
        if is_numeral(digits, 10) {
            Some(numeral_value(digits, 10) as int)
        } else {
            None
        }
    }
}

/// A numeral is at least as large as each of its beginnings.
proof fn lemma_beginning_is_smaller(text: Seq<u8>, base: nat, n: int)
    requires
        0 <= n <= text.len(),
        base >= 1,
    ensures
        numeral_value(text.take(n), base) <= numeral_value(text, base),
    decreases text.len(),
{
    if n == text.len() {
        assert(text.take(n) =~= text);
    } else {
        lemma_beginning_is_smaller(text.drop_last(), base, n);
        assert(text.drop_last().take(n) =~= text.take(n));
        let rest = numeral_value(text.drop_last(), base);
        assert(rest <= rest * base) by (nonlinear_arith)
            requires
                rest >= 0,
                base >= 1,
        ;
    }
}

/// One more digit behind the first `n` digits of a numeral.
proof fn lemma_next_digit(text: Seq<u8>, base: nat, n: int)
    requires
        0 <= n < text.len(),
    ensures
        numeral_value(text.take(n + 1), base) == numeral_value(text.take(n), base) * base
            + digit_value(text[n]).unwrap_or(0),
{
    assert(text.take(n + 1).drop_last() =~= text.take(n));
}

/// The value of a digit, in any base up to 16.
pub fn to_digit(byte: u8) -> (value: Option<u8>)
    ensures
        value is Some <==> digit_value(byte) is Some,
        value matches Some(v) ==> digit_value(byte) == Some(v as nat) && v < 16,
{
    if '0' as u8 <= byte && byte <= '9' as u8 {
        Some(byte - '0' as u8)
    } else if 'a' as u8 <= byte && byte <= 'f' as u8 {
        Some(byte - 'a' as u8 + 10)
    } else if 'A' as u8 <= byte && byte <= 'F' as u8 {
        Some(byte - 'A' as u8 + 10)
    } else {
        None
    }
}

/// The value of the numeral that begins at `start`, where it is no larger than `limit`.
fn parse_numeral(text: &[u8], start: usize, base: u64, limit: u64) -> (value: Option<u64>)
    requires
        start <= text@.len(),
        2 <= base <= 16,
    ensures
        value == if is_numeral(text@.skip(start as int), base as nat) && numeral_value(
            text@.skip(start as int),
            base as nat,
        ) <= limit {
            Some(numeral_value(text@.skip(start as int), base as nat) as u64)
        } else {
            None::<u64>
        },
{
    let ghost digits = text@.skip(start as int);
    if start == text.len() {
        return None;
    }
    let mut value: u64 = 0;
    let mut i: usize = start;
    assert(digits.take(0) =~= Seq::<u8>::empty());
    while i < text.len()
        invariant
            2 <= base <= 16,
            start <= i <= text@.len(),
            digits == text@.skip(start as int),
            forall|j: int| 0 <= j < i - start ==> is_digit(#[trigger] digits[j], base as nat),
            value == numeral_value(digits.take(i - start), base as nat),
            value <= limit,
        decreases text@.len() - i,
    {
        let ghost n = i - start;
        assert(digits[n] == text@[i as int]);
        let digit: u64 = match to_digit(text[i]) {
            Some(digit) => digit as u64,
            None => {
                assert(!is_digit(digits[n], base as nat));
                return None;
            },
        };
        if digit >= base {
            assert(!is_digit(digits[n], base as nat));
            return None;
        }
        proof {
            lemma_next_digit(digits, base as nat, n);
            lemma_beginning_is_smaller(digits, base as nat, n + 1);
        }
        assert(value * base <= u64::MAX * 16) by (nonlinear_arith)
            requires
                value <= u64::MAX,
                base <= 16,
        ;
        let next: u128 = value as u128 * base as u128 + digit as u128;
        if next > limit as u128 {
            return None;
        }
        value = next as u64;
        i += 1;
    }
    assert(digits.take(i - start) =~= digits);
    Some(value)
}

/// The number that `input` gives in decimal digits, where it fits a byte.
pub fn parse_number(input: &[u8]) -> (number: Option<u8>)
    ensures
        number == byte_number(input@),
{
    assert(input@.skip(0) =~= input@);
    match parse_numeral(input, 0, 10, 255) {
        Some(value) => Some(value as u8),
        None => None,
    }
}

/// Whether `text` is a hexadecimal numeral.
pub fn is_hex(text: &[u8]) -> (numeral: bool)
    ensures
        numeral == is_numeral(text@, 16),
{
    let mut i: usize = 0;
    while i < text.len()
        invariant
            i <= text@.len(),
            forall|j: int| 0 <= j < i ==> is_digit(#[trigger] text@[j], 16),
        decreases text@.len() - i,
    {
        if to_digit(text[i]).is_none() {
            assert(!is_digit(text@[i as int], 16));
            return false;
        }
        i += 1;
    }
    text.len() > 0
}

/// The number that `text` gives in hexadecimal digits, where it fits a `u64`.
pub fn parse_hex(text: &[u8]) -> (number: Option<u64>)
    ensures
        number == if is_numeral(text@, 16) && numeral_value(text@, 16) <= u64::MAX {
            Some(numeral_value(text@, 16) as u64)
        } else {
            None::<u64>
        },
{
    assert(text@.skip(0) =~= text@);
    parse_numeral(text, 0, 16, u64::MAX)
}

/// The number that `text` gives in decimal digits, behind a sign or not, where it fits an
/// `i32`.
pub fn parse_i32(text: &[u8]) -> (number: Option<i32>)
    ensures
        number == match signed_number(text@) {
            Some(value) => if i32::MIN <= value <= i32::MAX {
                Some(value as i32)
            } else {
                None
            },
            None => None,
        },
{
    assert(text@.skip(0) =~= text@);
    if text.len() > 0 && text[0] == '-' as u8 {
        match parse_numeral(text, 1, 10, 0x8000_0000) {
            Some(value) => Some((0 - value as i64) as i32),
            None => None,
        }
    } else {
        let start: usize = if text.len() > 0 && text[0] == '+' as u8 {
            1
        } else {
            0
        };
        match parse_numeral(text, start, 10, 0x7fff_ffff) {
            Some(value) => Some(value as i32),
            None => None,
        }
    }
}

/// The decimal numeral of a number.
pub open spec fn decimal_numeral(number: nat) -> Seq<u8>
    decreases number,
{
    let last = ('0' as u8 + number % 10) as u8;
    if number < 10 {
        seq![last]
    } else {
        decimal_numeral(number / 10).push(last)
    }
}

/// The decimal numeral of a number is a numeral of that value.
pub proof fn law_decimal_numeral_has_its_value(number: nat)
    ensures
        is_numeral(decimal_numeral(number), 10),
        numeral_value(decimal_numeral(number), 10) == number,
    decreases number,
{
    let numeral = decimal_numeral(number);
    let last = ('0' as u8 + number % 10) as u8;
    assert(digit_value(last) == Some(number % 10));
    if number < 10 {
        assert(numeral.drop_last() =~= Seq::<u8>::empty());
        assert(numeral_value(numeral.drop_last(), 10) == 0);
    } else {
        law_decimal_numeral_has_its_value(number / 10);
        assert(numeral.drop_last() =~= decimal_numeral(number / 10));
    }
}

/// Every number that fits a byte is read back from its decimal numeral, and no larger one is.
pub proof fn law_byte_number_round_trip(number: nat)
    ensures
        byte_number(decimal_numeral(number)) == if number <= u8::MAX {
            Some(number as u8)
        } else {
            None::<u8>
        },
{
    law_decimal_numeral_has_its_value(number);
}

} // verus!
