//! Laws of numbers.

use vstd::prelude::*;

use crate::number::{
    byte_number, decimal_numeral, digit_value, is_digit, is_numeral,
    law_decimal_numeral_has_its_value, numeral_value, signed_number,
};

verus! {

/// The digits are the ten decimal ones and the letters from `a` to `f`, small or large.
pub proof fn law_digits(byte: u8, d: nat)
    ensures
        d < 10 ==> digit_value(('0' as u8 + d) as u8) == Some(d),
        10 <= d < 16 ==> digit_value(('a' as u8 + d - 10) as u8) == Some(d),
        10 <= d < 16 ==> digit_value(('A' as u8 + d - 10) as u8) == Some(d),
        digit_value(byte) is Some <==> '0' as u8 <= byte <= '9' as u8 || 'a' as u8 <= byte
            <= 'f' as u8 || 'A' as u8 <= byte <= 'F' as u8,
{
}

/// A numeral is any text of digits that are smaller than the base. One more digit behind it
/// makes it as much larger as the base says, and adds the value of the digit.
pub proof fn law_numerals_are_positional(text: Seq<u8>, base: nat, byte: u8, d: nat)
    requires
        digit_value(byte) == Some(d),
    ensures
        numeral_value(seq![], base) == 0,
        numeral_value(text.push(byte), base) == numeral_value(text, base) * base + d,
        is_numeral(seq![byte], base) <==> d < base,
        is_numeral(text, base) ==> (is_numeral(text.push(byte), base) <==> d < base),
        !is_numeral(seq![], base),
{
    assert(text.push(byte).drop_last() =~= text);
    assert(seq![byte][0] == byte);
    if d < base {
        assert(is_digit(byte, base));
    }
    if is_numeral(text.push(byte), base) {
        assert(is_digit(text.push(byte)[text.len() as int], base));
    }
    if is_numeral(seq![byte], base) {
        assert(is_digit(seq![byte][0], base));
    }
}

/// A text with anything in it that is no digit is no numeral.
pub proof fn law_numerals_are_made_of_digits(text: Seq<u8>, base: nat, i: int)
    requires
        0 <= i < text.len(),
        digit_value(text[i]) is None || digit_value(text[i])->0 >= base,
    ensures
        !is_numeral(text, base),
{
    assert(!is_digit(text[i], base));
}

/// Zeros in front of a number make no difference to it.
proof fn lemma_leading_zero(text: Seq<u8>, base: nat)
    requires
        base >= 1,
    ensures
        numeral_value(seq!['0' as u8] + text, base) == numeral_value(text, base),
        text.len() > 0 ==> is_numeral(seq!['0' as u8] + text, base) == is_numeral(text, base),
    decreases text.len(),
{
    let zero = '0' as u8;
    let longer = seq![zero] + text;
    if text.len() == 0 {
        assert(longer.drop_last() =~= seq![]);
        assert(numeral_value(longer.drop_last(), base) == 0);
        assert(longer.last() == zero);
        assert(0 * base == 0) by (nonlinear_arith);
    } else {
        lemma_leading_zero(text.drop_last(), base);
        assert(longer.drop_last() =~= seq![zero] + text.drop_last());
        assert(is_digit(zero, base));
        if is_numeral(longer, base) {
            assert forall|i: int| 0 <= i < text.len() implies is_digit(#[trigger] text[i], base) by {
                assert(longer[i + 1] == text[i]);
            }
        }
        if is_numeral(text, base) {
            assert forall|i: int| 0 <= i < longer.len() implies is_digit(
                #[trigger] longer[i],
                base,
            ) by {
                if i > 0 {
                    assert(longer[i] == text[i - 1]);
                }
            }
        }
    }
}

/// A number that fits a byte is written in decimal digits and nothing else; zeros in front of
/// it make no difference.
pub proof fn law_byte_numbers_are_decimal(text: Seq<u8>, i: int)
    ensures
        byte_number(seq![]) is None,
        0 <= i < text.len() && !('0' as u8 <= text[i] <= '9' as u8) ==> byte_number(text) is None,
        text.len() > 0 ==> byte_number(seq!['0' as u8] + text) == byte_number(text),
{
    lemma_leading_zero(text, 10);
    if 0 <= i < text.len() && !('0' as u8 <= text[i] <= '9' as u8) {
        assert(!is_digit(text[i], 10));
    }
}

/// A number is read back from its decimal numeral, and with a sign in front of it.
pub proof fn law_signed_number_round_trip(n: nat)
    ensures
        signed_number(decimal_numeral(n)) == Some(n as int),
        signed_number(seq!['+' as u8] + decimal_numeral(n)) == Some(n as int),
        signed_number(seq!['-' as u8] + decimal_numeral(n)) == Some(-(n as int)),
{
    let numeral = decimal_numeral(n);
    law_decimal_numeral_has_its_value(n);
    assert(is_digit(numeral[0], 10));
    assert((seq!['+' as u8] + numeral).skip(1) =~= numeral);
    assert((seq!['-' as u8] + numeral).skip(1) =~= numeral);
}

/// A signed number is written in decimal digits, with at most one sign, and that in front;
/// zeros in front of the digits make no difference.
pub proof fn law_signed_numbers_are_decimal(text: Seq<u8>, i: int)
    ensures
        signed_number(seq![]) is None,
        signed_number(seq!['+' as u8]) is None,
        signed_number(seq!['-' as u8]) is None,
        0 <= i < text.len() && !('0' as u8 <= text[i] <= '9' as u8) && !(i == 0 && (text[i]
            == '+' as u8 || text[i] == '-' as u8)) ==> signed_number(text) is None,
        text.len() > 0 && '0' as u8 <= text[0] <= '9' as u8 ==> {
            &&& signed_number(seq!['0' as u8] + text) == signed_number(text)
            &&& signed_number(seq!['+' as u8, '0' as u8] + text) == signed_number(text)
            &&& signed_number(seq!['-' as u8, '0' as u8] + text) == signed_number(
                seq!['-' as u8] + text,
            )
        },
{
    lemma_leading_zero(text, 10);
    assert(seq!['+' as u8].skip(1) =~= seq![]);
    assert(seq!['-' as u8].skip(1) =~= seq![]);
    if 0 <= i < text.len() && !('0' as u8 <= text[i] <= '9' as u8) {
        assert(!is_digit(text[i], 10));
        if i > 0 {
            assert(text.skip(1)[i - 1] == text[i]);
            assert(!is_digit(text.skip(1)[i - 1], 10));
        }
    }
    let longer = seq!['0' as u8] + text;
    assert((seq!['+' as u8, '0' as u8] + text).skip(1) =~= longer);
    assert((seq!['-' as u8, '0' as u8] + text).skip(1) =~= longer);
    assert((seq!['-' as u8] + text).skip(1) =~= text);
}

} // verus!
