//! Colors in the formats of `XParseColor`.

use vstd::prelude::*;
use vstd::string::*;

use crate::bytes::{slice_views, spells};
use crate::color::Rgb;
use crate::number::{
    digit_value, is_digit, is_hex, is_numeral, numeral_value, parse_hex, to_digit,
};

verus! {

/// The parts of a text between the separators in it. A text without a separator is one part.
pub open spec fn split(text: Seq<u8>, separator: u8) -> Seq<Seq<u8>>
    decreases text.len(),
{
    if text.len() == 0 {
        seq![seq![]]
    } else {
        let before = split(text.drop_last(), separator);
        if text.last() == separator {
            before.push(seq![])
        } else {
            before.drop_last().push(before.last().push(text.last()))
        }
    }
}

/// The largest number with `digits` hexadecimal digits.
pub open spec fn largest_hex(digits: nat) -> nat
    decreases digits,
{
    if digits == 0 {
        0
    } else {
        largest_hex((digits - 1) as nat) * 16 + 15
    }
}

/// A color part of up to four hexadecimal digits, scaled so that the largest number with as
/// many digits becomes 255.
pub open spec fn scaled(part: Seq<u8>) -> Option<u8> {
    if part.len() <= 4 && is_numeral(part, 16) {
        Some((255 * numeral_value(part, 16) / largest_hex(part.len())) as u8)
    } else {
        None
    }
}

/// A color part of hexadecimal digits, cut or filled with a zero to two digits.
pub open spec fn cut(part: Seq<u8>) -> u8 {
    (digit_value(part[0])->0 * 16 + if part.len() >= 2 {
        digit_value(part[1])->0
    } else {
        0
    }) as u8
}

/// A color from its parts, where there are all three.
pub open spec fn from_parts(r: Option<u8>, g: Option<u8>, b: Option<u8>) -> Option<Rgb> {
    if r is Some && g is Some && b is Some {
        Some(Rgb { r: r->0, g: g->0, b: b->0 })
    } else {
        None
    }
}

/// The color that `color` gives in the format `r(rrr)/g(ggg)/b(bbb)`.
pub open spec fn rgb_color(color: Seq<u8>) -> Option<Rgb> {
    let parts = split(color, '/' as u8);
    if parts.len() == 3 {
        from_parts(scaled(parts[0]), scaled(parts[1]), scaled(parts[2]))
    } else {
        None
    }
}

/// The color that `color` gives in the format `r(rrr)g(ggg)b(bbb)`, with the same number of
/// digits for each part.
pub open spec fn legacy_color(color: Seq<u8>) -> Option<Rgb> {
    let digits = color.len() as int;
    if (digits == 3 || digits == 6 || digits == 9 || digits == 12) && is_numeral(color, 16) {
        let third = digits / 3;
        Some(
            Rgb {
                r: cut(color.subrange(0, third)),
                g: cut(color.subrange(third, third * 2)),
                b: cut(color.subrange(third * 2, digits)),
            },
        )
    } else {
        None
    }
}

/// The color that `color` gives in one of the formats of `XParseColor`.
pub open spec fn x_color(color: Seq<u8>) -> Option<Rgb> {
    if color.len() > 0 && color[0] == '#' as u8 {
        legacy_color(color.skip(1))
    } else if color.len() >= 4 && color.take(4) == "rgb:".spec_bytes() {
        rgb_color(color.skip(4))
    } else {
        None
    }
}

/// The parts of a text between the separators in it.
fn split_at(text: &[u8], separator: u8) -> (parts: Vec<&[u8]>)
    ensures
        slice_views(parts@) == split(text@, separator),
{
    let mut parts: Vec<&[u8]> = Vec::new();
    let mut start: usize = 0;
    let mut i: usize = 0;
    assert(text@.take(0) =~= Seq::<u8>::empty());
    assert(split(text@.take(0), separator) =~= slice_views(parts@).push(text@.subrange(0, 0)));
    while i < text.len()
        invariant
            start <= i <= text@.len(),
            split(text@.take(i as int), separator) == slice_views(parts@).push(
                text@.subrange(start as int, i as int),
            ),
        decreases text@.len() - i,
    {
        let ghost before = slice_views(parts@).push(text@.subrange(start as int, i as int));
        proof {
            assert(text@.take(i + 1).drop_last() =~= text@.take(i as int));
            assert(before.drop_last() =~= slice_views(parts@));
        }
        if text[i] == separator {
            parts.push(&text[start..i]);
            start = i + 1;
            assert(slice_views(parts@) =~= before);
            assert(text@.subrange(start as int, i + 1) =~= Seq::<u8>::empty());
        } else {
            assert(text@.subrange(start as int, i + 1) =~= text@.subrange(
                start as int,
                i as int,
            ).push(text@[i as int]));
        }
        i += 1;
    }
    assert(text@.take(i as int) =~= text@);
    let ghost before = slice_views(parts@);
    parts.push(&text[start..i]);
    assert(slice_views(parts@) =~= before.push(text@.subrange(start as int, i as int)));
    parts
}

/// A number with at most as many digits as `largest_hex` allows is no larger than it.
proof fn lemma_hex_bound(text: Seq<u8>)
    requires
        forall|i: int| 0 <= i < text.len() ==> is_digit(#[trigger] text[i], 16),
    ensures
        numeral_value(text, 16) <= largest_hex(text.len()),
    decreases text.len(),
{
    if text.len() > 0 {
        lemma_hex_bound(text.drop_last());
        assert(is_digit(text[text.len() - 1], 16));
    }
}

/// The values of the `largest_hex` numbers of up to four digits.
proof fn lemma_largest_hex()
    ensures
        largest_hex(0) == 0,
        largest_hex(1) == 0xf,
        largest_hex(2) == 0xff,
        largest_hex(3) == 0xfff,
        largest_hex(4) == 0xffff,
{
    reveal_with_fuel(largest_hex, 5);
}

/// Scales a color part of up to four hexadecimal digits.
fn scale(part: &[u8]) -> (value: Option<u8>)
    ensures
        value == scaled(part@),
{
    proof {
        lemma_largest_hex();
        if is_numeral(part@, 16) {
            lemma_hex_bound(part@);
        }
    }
    if part.len() > 4 {
        return None;
    }
    let value: u64 = match parse_hex(part) {
        Some(value) => value,
        None => return None,
    };
    let max: u64 = if part.len() == 1 {
        0xf
    } else if part.len() == 2 {
        0xff
    } else if part.len() == 3 {
        0xfff
    } else {
        0xffff
    };
    assert(255 * value / max as int <= 255) by (nonlinear_arith)
        requires
            0 <= value <= max,
            max > 0,
    ;
    Some((255 * value / max) as u8)
}

/// Parse colors in `r(rrr)/g(ggg)/b(bbb)` format.
pub fn parse_rgb_color(color: &[u8]) -> (result: Option<Rgb>)
    ensures
        result == rgb_color(color@),
{
    let parts: Vec<&[u8]> = split_at(color, '/' as u8);
    if parts.len() != 3 {
        return None;
    }
    match (scale(parts[0]), scale(parts[1]), scale(parts[2])) {
        (Some(r), Some(g), Some(b)) => Some(Rgb { r, g, b }),
        _ => None,
    }
}

/// Cuts or fills a color part to two digits.
fn color_from_slice(part: &[u8]) -> (value: u8)
    requires
        is_numeral(part@, 16),
    ensures
        value == cut(part@),
{
    assert(is_digit(part@[0], 16));
    let first: u8 = to_digit(part[0]).unwrap();
    if part.len() >= 2 {
        assert(is_digit(part@[1], 16));
        let second: u8 = to_digit(part[1]).unwrap();
        first * 16 + second
    } else {
        first * 16
    }
}

/// Parse colors in `r(rrr)g(ggg)b(bbb)` format.
pub fn parse_legacy_color(color: &[u8]) -> (result: Option<Rgb>)
    ensures
        result == legacy_color(color@),
{
    let len: usize = color.len();
    if !(len == 3 || len == 6 || len == 9 || len == 12) || !is_hex(color) {
        return None;
    }
    let item_len: usize = len / 3;
    Some(
        Rgb {
            r: color_from_slice(&color[0..item_len]),
            g: color_from_slice(&color[item_len..item_len * 2]),
            b: color_from_slice(&color[item_len * 2..len]),
        },
    )
}

/// Parse colors in XParseColor format.
pub fn xparse_color(color: &[u8]) -> (result: Option<Rgb>)
    ensures
        result == x_color(color@),
{
    if color.len() > 0 && color[0] == '#' as u8 {
        assert(color@.skip(1) =~= color@.subrange(1, color@.len() as int));
        parse_legacy_color(&color[1..color.len()])
    } else if color.len() >= 4 && spells(&color[0..4], "rgb:") {
        assert(color@.skip(4) =~= color@.subrange(4, color@.len() as int));
        parse_rgb_color(&color[4..color.len()])
    } else {
        None
    }
}

/// The parts of two texts with a separator between them are the parts of the first and then
/// those of the second.
pub proof fn law_split_at_separator(first: Seq<u8>, second: Seq<u8>, separator: u8)
    ensures
        split(first.push(separator) + second, separator) == split(first, separator) + split(
            second,
            separator,
        ),
        split(second, separator).len() > 0,
    decreases second.len(),
{
    let text = first.push(separator) + second;
    if second.len() == 0 {
        assert(text =~= first.push(separator));
        assert(text.drop_last() =~= first);
        assert(split(text, separator) =~= split(first, separator) + split(second, separator));
    } else {
        let rest = second.drop_last();
        law_split_at_separator(first, rest, separator);
        assert(text.drop_last() =~= first.push(separator) + rest);
        let before = split(rest, separator);
        let whole = split(first, separator) + before;
        assert(whole.drop_last() =~= split(first, separator) + before.drop_last());
        assert(split(text, separator) =~= split(first, separator) + split(second, separator));
    }
}

/// A text without a separator is its only part.
pub proof fn law_split_without_separator(text: Seq<u8>, separator: u8)
    requires
        !text.contains(separator),
    ensures
        split(text, separator) == seq![text],
    decreases text.len(),
{
    if text.len() == 0 {
        assert(text =~= seq![]);
    } else {
        let rest = text.drop_last();
        assert forall|i: int| 0 <= i < rest.len() implies rest[i] != separator by {
            assert(text.contains(text[i]));
        }
        law_split_without_separator(rest, separator);
        assert(text.contains(text.last()));
        assert(rest.push(text.last()) =~= text);
        assert(split(text, separator) =~= seq![text]);
    }
}

/// In the legacy format a part stands for the most significant byte of the number that it
/// gives.
pub proof fn law_legacy_part_is_most_significant_byte(part: Seq<u8>)
    requires
        is_numeral(part, 16),
        part.len() <= 4,
    ensures
        part.len() == 1 ==> cut(part) == 16 * numeral_value(part, 16),
        part.len() == 2 ==> cut(part) == numeral_value(part, 16),
        part.len() == 3 ==> cut(part) == numeral_value(part, 16) / 16,
        part.len() == 4 ==> cut(part) == numeral_value(part, 16) / 256,
{
    reveal_with_fuel(numeral_value, 5);
    assert(is_digit(part[0], 16));
    if part.len() >= 2 {
        assert(is_digit(part[1], 16));
    }
    if part.len() >= 3 {
        assert(is_digit(part[2], 16));
    }
    if part.len() >= 4 {
        assert(is_digit(part[3], 16));
    }
}

/// In the `rgb:` format a part of one digit stands for that digit twice, a part of two digits
/// for its own value.
pub proof fn law_rgb_part_of_one_or_two_digits(part: Seq<u8>)
    requires
        is_numeral(part, 16),
        part.len() <= 2,
    ensures
        part.len() == 1 ==> scaled(part) == Some((17 * numeral_value(part, 16)) as u8),
        part.len() == 2 ==> scaled(part) == Some(numeral_value(part, 16) as u8),
{
    lemma_largest_hex();
    lemma_hex_bound(part);
}

/// A larger part of as many digits gives no smaller color value, zeros give 0 and the largest
/// number gives 255.
pub proof fn law_rgb_part_is_monotonic(a: Seq<u8>, b: Seq<u8>)
    requires
        a.len() == b.len() <= 4,
        is_numeral(a, 16),
        is_numeral(b, 16),
        numeral_value(a, 16) <= numeral_value(b, 16),
    ensures
        scaled(a) is Some,
        scaled(b) is Some,
        scaled(a)->0 <= scaled(b)->0,
        numeral_value(a, 16) == 0 ==> scaled(a) == Some(0u8),
        numeral_value(b, 16) == largest_hex(b.len()) ==> scaled(b) == Some(255u8),
{
    lemma_largest_hex();
    lemma_hex_bound(a);
    lemma_hex_bound(b);
    let max = largest_hex(a.len());
    let x = 255 * numeral_value(a, 16);
    let y = 255 * numeral_value(b, 16);
    assert(0 <= x / max <= y / max <= 255) by (nonlinear_arith)
        requires
            0 <= x <= y <= 255 * max,
            max > 0,
    ;
    assert(255 * max / max == 255) by (nonlinear_arith)
        requires
            max > 0,
    ;
    assert(0nat / max == 0) by (nonlinear_arith)
        requires
            max > 0,
    ;
}

/// A part of two digits has the same value in both formats, and no separator in it.
proof fn lemma_two_digit_part(part: Seq<u8>)
    requires
        is_numeral(part, 16),
        part.len() == 2,
    ensures
        scaled(part) == Some(cut(part)),
        split(part, '/' as u8) == seq![part],
{
    law_legacy_part_is_most_significant_byte(part);
    law_rgb_part_of_one_or_two_digits(part);
    assert(is_digit(part[0], 16) && is_digit(part[1], 16));
    law_split_without_separator(part, '/' as u8);
}

/// The two formats give the same color for parts of two digits.
pub proof fn law_formats_agree_on_two_digits(r: Seq<u8>, g: Seq<u8>, b: Seq<u8>)
    requires
        is_numeral(r, 16) && r.len() == 2,
        is_numeral(g, 16) && g.len() == 2,
        is_numeral(b, 16) && b.len() == 2,
    ensures
        x_color(seq!['#' as u8] + r + g + b) is Some,
        x_color(seq!['#' as u8] + r + g + b) == x_color(
            "rgb:".spec_bytes() + r.push('/' as u8) + g.push('/' as u8) + b,
        ),
{
    let slash = '/' as u8;
    let legacy = seq!['#' as u8] + r + g + b;
    assert(legacy.skip(1).subrange(0, 2) =~= r);
    assert(legacy.skip(1).subrange(2, 4) =~= g);
    assert(legacy.skip(1).subrange(4, 6) =~= b);
    assert forall|i: int| 0 <= i < 6 implies is_digit(#[trigger] legacy.skip(1)[i], 16) by {
        assert(is_digit(r[0], 16) && is_digit(r[1], 16));
        assert(is_digit(g[0], 16) && is_digit(g[1], 16));
        assert(is_digit(b[0], 16) && is_digit(b[1], 16));
    }
    let prefix = "rgb:".spec_bytes();
    reveal_strlit("rgb:");
    assert(is_ascii("rgb:"));
    assert(prefix.len() == 4 && prefix[0] == 'r' as u8);
    let modern = prefix + r.push(slash) + g.push(slash) + b;
    assert(modern.take(4) =~= prefix);
    let rest = r.push(slash) + (g.push(slash) + b);
    assert(modern.skip(4) =~= rest);
    lemma_two_digit_part(r);
    lemma_two_digit_part(g);
    lemma_two_digit_part(b);
    law_split_at_separator(g, b, slash);
    law_split_at_separator(r, g.push(slash) + b, slash);
    assert(split(rest, slash) =~= seq![r, g, b]);
}

} // verus!
