//! Laws of written colors.

use vstd::prelude::*;
use vstd::string::*;

use crate::color::Rgb;
use crate::number::{is_digit, is_numeral, numeral_value};
use crate::xcolor::{
    law_legacy_part_is_most_significant_byte, law_split_at_separator,
    law_split_without_separator, largest_hex, scaled, split, x_color,
};

verus! {

/// The bytes of the prefix `rgb:`.
proof fn lemma_prefix()
    ensures
        "rgb:".spec_bytes() == seq!['r' as u8, 'g' as u8, 'b' as u8, ':' as u8],
{
    reveal_strlit("rgb:");
    assert(is_ascii("rgb:"));
    assert("rgb:".spec_bytes() =~= seq!['r' as u8, 'g' as u8, 'b' as u8, ':' as u8]);
}

/// Three numerals one behind the other are a numeral.
proof fn lemma_three_numerals(r: Seq<u8>, g: Seq<u8>, b: Seq<u8>)
    requires
        is_numeral(r, 16),
        is_numeral(g, 16),
        is_numeral(b, 16),
    ensures
        is_numeral(r + g + b, 16),
{
    let all = r + g + b;
    assert forall|i: int| 0 <= i < all.len() implies is_digit(#[trigger] all[i], 16) by {
        if i < r.len() {
            assert(all[i] == r[i]);
        } else if i < r.len() + g.len() {
            assert(all[i] == g[i - r.len()]);
        } else {
            assert(all[i] == b[i - r.len() - g.len()]);
        }
    }
}

/// Behind `#` stand the red, the green and the blue part, with one to four hexadecimal digits
/// each and as many for each. A part of one digit is filled up with a zero, of a longer one the
/// most significant two digits count.
pub proof fn law_legacy_colors(r: Seq<u8>, g: Seq<u8>, b: Seq<u8>)
    requires
        is_numeral(r, 16),
        is_numeral(g, 16),
        is_numeral(b, 16),
        r.len() == g.len() == b.len(),
        r.len() <= 4,
    ensures
        ({
            let x = numeral_value(r, 16);
            let y = numeral_value(g, 16);
            let z = numeral_value(b, 16);
            let color = x_color(seq!['#' as u8] + r + g + b);
            &&& r.len() == 1 ==> color == Some(
                Rgb { r: (16 * x) as u8, g: (16 * y) as u8, b: (16 * z) as u8 },
            )
            &&& r.len() == 2 ==> color == Some(Rgb { r: x as u8, g: y as u8, b: z as u8 })
            &&& r.len() == 3 ==> color == Some(
                Rgb { r: (x / 16) as u8, g: (y / 16) as u8, b: (z / 16) as u8 },
            )
            &&& r.len() == 4 ==> color == Some(
                Rgb { r: (x / 256) as u8, g: (y / 256) as u8, b: (z / 256) as u8 },
            )
        }),
{
    let color = seq!['#' as u8] + r + g + b;
    let digits = color.skip(1);
    let n = r.len() as int;
    assert(digits =~= r + g + b);
    lemma_three_numerals(r, g, b);
    assert(digits.subrange(0, n) =~= r);
    assert(digits.subrange(n, n * 2) =~= g);
    assert(digits.subrange(n * 2, n * 3) =~= b);
    law_legacy_part_is_most_significant_byte(r);
    law_legacy_part_is_most_significant_byte(g);
    law_legacy_part_is_most_significant_byte(b);
}

/// The largest numbers of one to four hexadecimal digits.
proof fn lemma_largest()
    ensures
        largest_hex(1) == 15,
        largest_hex(2) == 255,
        largest_hex(3) == 4095,
        largest_hex(4) == 65535,
{
    reveal_with_fuel(largest_hex, 5);
}

/// A numeral has no slash in it.
proof fn lemma_no_slash(part: Seq<u8>)
    requires
        is_numeral(part, 16),
    ensures
        split(part, '/' as u8) == seq![part],
{
    assert forall|i: int| 0 <= i < part.len() implies part[i] != '/' as u8 by {
        assert(is_digit(part[i], 16));
    }
    law_split_without_separator(part, '/' as u8);
}

/// Behind `rgb:` stand the red, the green and the blue part with slashes between them, each with
/// one to four hexadecimal digits of its own. Each part is scaled so that the largest number of
/// as many digits becomes 255.
pub proof fn law_rgb_colors(
    r: Seq<u8>,
    g: Seq<u8>,
    b: Seq<u8>,
    red_max: nat,
    green_max: nat,
    blue_max: nat,
)
    requires
        is_numeral(r, 16) && r.len() <= 4,
        is_numeral(g, 16) && g.len() <= 4,
        is_numeral(b, 16) && b.len() <= 4,
        red_max == seq![0nat, 15, 255, 4095, 65535][r.len() as int],
        green_max == seq![0nat, 15, 255, 4095, 65535][g.len() as int],
        blue_max == seq![0nat, 15, 255, 4095, 65535][b.len() as int],
    ensures
        x_color(
            seq!['r' as u8, 'g' as u8, 'b' as u8, ':' as u8] + r + seq!['/' as u8] + g + seq![
                '/' as u8,
            ] + b,
        ) == Some(
            (Rgb {
                r: (255 * numeral_value(r, 16) / red_max) as u8,
                g: (255 * numeral_value(g, 16) / green_max) as u8,
                b: (255 * numeral_value(b, 16) / blue_max) as u8,
            }),
        ),
{
    let slash = '/' as u8;
    let prefix = seq!['r' as u8, 'g' as u8, 'b' as u8, ':' as u8];
    let color = prefix + r + seq![slash] + g + seq![slash] + b;
    let rest = r.push(slash) + (g.push(slash) + b);
    lemma_prefix();
    lemma_largest();
    assert(color.take(4) =~= prefix);
    assert(color.skip(4) =~= rest);
    lemma_no_slash(r);
    lemma_no_slash(g);
    lemma_no_slash(b);
    law_split_at_separator(g, b, slash);
    law_split_at_separator(r, g.push(slash) + b, slash);
    assert(split(rest, slash) =~= seq![r, g, b]);
}

/// Three parts are what stands before, between and behind two separators.
proof fn lemma_split_rejoins(text: Seq<u8>, separator: u8)
    ensures
        split(text, separator).len() >= 1,
        split(text, separator).len() == 1 ==> text == split(text, separator)[0],
        split(text, separator).len() == 2 ==> text == split(text, separator)[0].push(separator)
            + split(text, separator)[1],
        split(text, separator).len() == 3 ==> text == split(text, separator)[0].push(separator)
            + split(text, separator)[1].push(separator) + split(text, separator)[2],
    decreases text.len(),
{
    if text.len() == 0 {
        assert(text =~= seq![]);
    } else {
        let rest = text.drop_last();
        lemma_split_rejoins(rest, separator);
        assert(text =~= rest.push(text.last()));
        let before = split(rest, separator);
        let parts = split(text, separator);
        if parts.len() == 1 {
            assert(text =~= parts[0]);
        } else if parts.len() == 2 {
            assert(text =~= parts[0].push(separator) + parts[1]);
        } else if parts.len() == 3 {
            assert(text =~= parts[0].push(separator) + parts[1].push(separator) + parts[2]);
        }
    }
}

/// Nothing else is a color: what has one is written in one of the two formats.
pub proof fn law_nothing_else_is_a_color(color: Seq<u8>)
    requires
        x_color(color) is Some,
    ensures
        exists|r: Seq<u8>, g: Seq<u8>, b: Seq<u8>|
            {
                &&& #[trigger] is_numeral(r, 16) && r.len() <= 4
                &&& #[trigger] is_numeral(g, 16) && g.len() <= 4
                &&& #[trigger] is_numeral(b, 16) && b.len() <= 4
                &&& {
                    ||| r.len() == g.len() == b.len() && color == seq!['#' as u8] + r + g + b
                    ||| color == seq!['r' as u8, 'g' as u8, 'b' as u8, ':' as u8] + r + seq![
                        '/' as u8,
                    ] + g + seq!['/' as u8] + b
                }
            },
{
    let slash = '/' as u8;
    if color.len() > 0 && color[0] == '#' as u8 {
        let digits = color.skip(1);
        let n = digits.len() as int / 3;
        let r = digits.subrange(0, n);
        let g = digits.subrange(n, n * 2);
        let b = digits.subrange(n * 2, n * 3);
        assert forall|i: int| 0 <= i < n implies is_digit(#[trigger] r[i], 16) by {
            assert(is_digit(digits[i], 16));
        }
        assert forall|i: int| 0 <= i < n implies is_digit(#[trigger] g[i], 16) by {
            assert(is_digit(digits[n + i], 16));
        }
        assert forall|i: int| 0 <= i < n implies is_digit(#[trigger] b[i], 16) by {
            assert(is_digit(digits[n * 2 + i], 16));
        }
        assert(is_numeral(r, 16) && is_numeral(g, 16) && is_numeral(b, 16));
        assert(color =~= seq!['#' as u8] + r + g + b);
    } else {
        let prefix = seq!['r' as u8, 'g' as u8, 'b' as u8, ':' as u8];
        let rest = color.skip(4);
        let parts = split(rest, slash);
        lemma_prefix();
        lemma_split_rejoins(rest, slash);
        assert(scaled(parts[0]) is Some && scaled(parts[1]) is Some && scaled(parts[2]) is Some);
        let (r, g, b) = (parts[0], parts[1], parts[2]);
        assert(is_numeral(r, 16) && is_numeral(g, 16) && is_numeral(b, 16));
        assert(color =~= prefix + rest) by {
            assert(color.take(4) + color.skip(4) =~= color);
        }
        assert(color =~= prefix + r + seq![slash] + g + seq![slash] + b);
    }
}

} // verus!
