//! Laws of text attributes.
//!
//! The laws speak of parameters with others behind them; these stand for the same as if they
//! stood alone.

use vstd::prelude::*;

use crate::attr::Attr;
use crate::color::{Color, NamedColor, Rgb};
use crate::sgr::{sgr_attrs, sgr_color, subparameter_values, values_of};

verus! {

/// The numbers of the attributes that are no colors.
pub proof fn law_style_codes(rest: Seq<Seq<u16>>)
    ensures
        sgr_attrs(seq![seq![0u16]] + rest) == seq![Some(Attr::Reset)] + sgr_attrs(rest),
        sgr_attrs(seq![seq![1u16]] + rest) == seq![Some(Attr::Bold)] + sgr_attrs(rest),
        sgr_attrs(seq![seq![2u16]] + rest) == seq![Some(Attr::Dim)] + sgr_attrs(rest),
        sgr_attrs(seq![seq![3u16]] + rest) == seq![Some(Attr::Italic)] + sgr_attrs(rest),
        sgr_attrs(seq![seq![4u16]] + rest) == seq![Some(Attr::Underline)] + sgr_attrs(rest),
        sgr_attrs(seq![seq![5u16]] + rest) == seq![Some(Attr::BlinkSlow)] + sgr_attrs(rest),
        sgr_attrs(seq![seq![6u16]] + rest) == seq![Some(Attr::BlinkFast)] + sgr_attrs(rest),
        sgr_attrs(seq![seq![7u16]] + rest) == seq![Some(Attr::Reverse)] + sgr_attrs(rest),
        sgr_attrs(seq![seq![8u16]] + rest) == seq![Some(Attr::Hidden)] + sgr_attrs(rest),
        sgr_attrs(seq![seq![9u16]] + rest) == seq![Some(Attr::Strike)] + sgr_attrs(rest),
        sgr_attrs(seq![seq![21u16]] + rest) == seq![Some(Attr::CancelBold)] + sgr_attrs(rest),
        sgr_attrs(seq![seq![22u16]] + rest) == seq![Some(Attr::CancelBoldDim)] + sgr_attrs(rest),
        sgr_attrs(seq![seq![23u16]] + rest) == seq![Some(Attr::CancelItalic)] + sgr_attrs(rest),
        sgr_attrs(seq![seq![24u16]] + rest) == seq![Some(Attr::CancelUnderline)] + sgr_attrs(rest),
        sgr_attrs(seq![seq![25u16]] + rest) == seq![Some(Attr::CancelBlink)] + sgr_attrs(rest),
        sgr_attrs(seq![seq![27u16]] + rest) == seq![Some(Attr::CancelReverse)] + sgr_attrs(rest),
        sgr_attrs(seq![seq![28u16]] + rest) == seq![Some(Attr::CancelHidden)] + sgr_attrs(rest),
        sgr_attrs(seq![seq![29u16]] + rest) == seq![Some(Attr::CancelStrike)] + sgr_attrs(rest),
{
    assert((seq![seq![0u16]] + rest).skip(1) =~= rest);
    assert((seq![seq![1u16]] + rest).skip(1) =~= rest);
    assert((seq![seq![2u16]] + rest).skip(1) =~= rest);
    assert((seq![seq![3u16]] + rest).skip(1) =~= rest);
    assert((seq![seq![4u16]] + rest).skip(1) =~= rest);
    assert((seq![seq![5u16]] + rest).skip(1) =~= rest);
    assert((seq![seq![6u16]] + rest).skip(1) =~= rest);
    assert((seq![seq![7u16]] + rest).skip(1) =~= rest);
    assert((seq![seq![8u16]] + rest).skip(1) =~= rest);
    assert((seq![seq![9u16]] + rest).skip(1) =~= rest);
    assert((seq![seq![21u16]] + rest).skip(1) =~= rest);
    assert((seq![seq![22u16]] + rest).skip(1) =~= rest);
    assert((seq![seq![23u16]] + rest).skip(1) =~= rest);
    assert((seq![seq![24u16]] + rest).skip(1) =~= rest);
    assert((seq![seq![25u16]] + rest).skip(1) =~= rest);
    assert((seq![seq![27u16]] + rest).skip(1) =~= rest);
    assert((seq![seq![28u16]] + rest).skip(1) =~= rest);
    assert((seq![seq![29u16]] + rest).skip(1) =~= rest);
}

/// The eight basic colors have the numbers from 30 on as foreground and from 40 on as
/// background, in the order of a color list; bright, they have the numbers from 90 on and from
/// 100 on.
pub proof fn law_basic_color_codes(
    color: NamedColor,
    bright: NamedColor,
    n: u16,
    rest: Seq<Seq<u16>>,
)
    requires
        n < 8,
        color.slot() == n,
        bright.slot() == n + 8,
    ensures
        sgr_attrs(seq![seq![(30 + n) as u16]] + rest) == seq![
            Some(Attr::Foreground(Color::Named(color))),
        ] + sgr_attrs(rest),
        sgr_attrs(seq![seq![(40 + n) as u16]] + rest) == seq![
            Some(Attr::Background(Color::Named(color))),
        ] + sgr_attrs(rest),
        sgr_attrs(seq![seq![(90 + n) as u16]] + rest) == seq![
            Some(Attr::Foreground(Color::Named(bright))),
        ] + sgr_attrs(rest),
        sgr_attrs(seq![seq![(100 + n) as u16]] + rest) == seq![
            Some(Attr::Background(Color::Named(bright))),
        ] + sgr_attrs(rest),
{
    assert((seq![seq![(30 + n) as u16]] + rest).skip(1) =~= rest);
    assert((seq![seq![(40 + n) as u16]] + rest).skip(1) =~= rest);
    assert((seq![seq![(90 + n) as u16]] + rest).skip(1) =~= rest);
    assert((seq![seq![(100 + n) as u16]] + rest).skip(1) =~= rest);
    crate::color::law_slots_are_distinct(color, NamedColor::basics()[n as int]);
    crate::color::law_slots_are_distinct(bright, NamedColor::basics()[n + 8]);
}

/// 39 and 49 take the colors back to those of the terminal.
pub proof fn law_default_color_codes(rest: Seq<Seq<u16>>)
    ensures
        sgr_attrs(seq![seq![39u16]] + rest) == seq![
            Some(Attr::Foreground(Color::Named(NamedColor::Foreground))),
        ] + sgr_attrs(rest),
        sgr_attrs(seq![seq![49u16]] + rest) == seq![
            Some(Attr::Background(Color::Named(NamedColor::Background))),
        ] + sgr_attrs(rest),
{
    assert((seq![seq![39u16]] + rest).skip(1) =~= rest);
    assert((seq![seq![49u16]] + rest).skip(1) =~= rest);
}

/// Every other number stands for no attribute.
pub proof fn law_other_codes_stand_for_nothing(code: u16, rest: Seq<Seq<u16>>)
    requires
        9 < code < 21 || code == 26 || 49 < code < 90 || 97 < code < 100 || 107 < code,
    ensures
        sgr_attrs(seq![seq![code]] + rest) == seq![None::<Attr>] + sgr_attrs(rest),
{
    assert((seq![seq![code]] + rest).skip(1) =~= rest);
}

/// Of the numbers without a color behind them only 4 takes subparameters: `4:0` takes an
/// underline back, `4:2` is a double one, and everything else a single one.
pub proof fn law_subparameters(group: Seq<u16>, rest: Seq<Seq<u16>>)
    requires
        group.len() > 1,
        group[0] != 38,
        group[0] != 48,
    ensures
        group[0] == 4 && group.len() == 2 && group[1] == 0 ==> sgr_attrs(seq![group] + rest) == seq![
            Some(Attr::CancelUnderline),
        ] + sgr_attrs(rest),
        group[0] == 4 && group.len() == 2 && group[1] == 2 ==> sgr_attrs(seq![group] + rest) == seq![
            Some(Attr::DoubleUnderline),
        ] + sgr_attrs(rest),
        group[0] == 4 && (group.len() > 2 || (group[1] != 0 && group[1] != 2)) ==> sgr_attrs(
            seq![group] + rest,
        ) == seq![Some(Attr::Underline)] + sgr_attrs(rest),
        group[0] != 4 ==> sgr_attrs(seq![group] + rest) == seq![None::<Attr>] + sgr_attrs(rest),
{
    assert((seq![group] + rest).skip(1) =~= rest);
}

/// A color behind 38 is that of the foreground and one behind 48 that of the background. `2`
/// comes with a red, a green and a blue part, each a parameter of its own.
pub proof fn law_true_color(
    kind: Seq<u16>,
    red: Seq<u16>,
    green: Seq<u16>,
    blue: Seq<u16>,
    rest: Seq<Seq<u16>>,
)
    requires
        kind.len() > 0 && kind[0] == 2,
        red.len() > 0 && red[0] <= 255,
        green.len() > 0 && green[0] <= 255,
        blue.len() > 0 && blue[0] <= 255,
    ensures
        ({
            let color = Color::Spec(Rgb { r: red[0] as u8, g: green[0] as u8, b: blue[0] as u8 });
            &&& sgr_attrs(seq![seq![38u16], kind, red, green, blue] + rest) == seq![
                Some(Attr::Foreground(color)),
            ] + sgr_attrs(rest)
            &&& sgr_attrs(seq![seq![48u16], kind, red, green, blue] + rest) == seq![
                Some(Attr::Background(color)),
            ] + sgr_attrs(rest)
        }),
{
    let fore = seq![seq![38u16], kind, red, green, blue] + rest;
    let back = seq![seq![48u16], kind, red, green, blue] + rest;
    lemma_values(fore);
    lemma_values(back);
    assert(fore.skip(5) =~= rest);
    assert(back.skip(5) =~= rest);
}

/// `5` comes with the index of a color, which is a parameter of its own.
pub proof fn law_indexed_color(kind: Seq<u16>, index: Seq<u16>, rest: Seq<Seq<u16>>)
    requires
        kind.len() > 0 && kind[0] == 5,
        index.len() > 0 && index[0] <= 255,
    ensures
        sgr_attrs(seq![seq![38u16], kind, index] + rest) == seq![
            Some(Attr::Foreground(Color::Indexed(index[0] as u8))),
        ] + sgr_attrs(rest),
        sgr_attrs(seq![seq![48u16], kind, index] + rest) == seq![
            Some(Attr::Background(Color::Indexed(index[0] as u8))),
        ] + sgr_attrs(rest),
{
    let fore = seq![seq![38u16], kind, index] + rest;
    let back = seq![seq![48u16], kind, index] + rest;
    lemma_values(fore);
    lemma_values(back);
    assert(fore.skip(3) =~= rest);
    assert(back.skip(3) =~= rest);
}

/// The values behind the first parameter, one by one.
proof fn lemma_values(groups: Seq<Seq<u16>>)
    requires
        groups.len() > 0,
    ensures
        values_of(groups.skip(1)).len() == groups.len() - 1,
        forall|i: int|
            0 <= i < groups.len() - 1 ==> #[trigger] values_of(groups.skip(1))[i] == groups[i
                + 1][0],
{
}

/// A color that is not complete, or has a part that is too large, stands for no attribute. The
/// parameters up to the first wrong one belong to it, and what follows is read on its own.
pub proof fn law_wrong_colors_stand_for_nothing(
    code: u16,
    wrong: Seq<u16>,
    part: Seq<u16>,
    other: Seq<u16>,
    rest: Seq<Seq<u16>>,
)
    requires
        code == 38 || code == 48,
        wrong.len() > 0 && wrong[0] > 255,
        part.len() > 0 && part[0] <= 255,
        other.len() > 0 && other[0] <= 255,
    ensures
        ({
            let nothing = seq![None::<Attr>];
            &&& sgr_attrs(seq![seq![code]]) == nothing
            &&& sgr_attrs(seq![seq![code], seq![5u16]]) == nothing
            &&& sgr_attrs(seq![seq![code], seq![2u16]]) == nothing
            &&& sgr_attrs(seq![seq![code], seq![2u16], part]) == nothing
            &&& sgr_attrs(seq![seq![code], seq![2u16], part, other]) == nothing
            &&& sgr_attrs(seq![seq![code], wrong] + rest) == nothing + sgr_attrs(rest)
            &&& sgr_attrs(seq![seq![code], seq![5u16], wrong] + rest) == nothing + sgr_attrs(rest)
            &&& sgr_attrs(seq![seq![code], seq![2u16], wrong] + rest) == nothing + sgr_attrs(rest)
            &&& sgr_attrs(seq![seq![code], seq![2u16], part, wrong] + rest) == nothing + sgr_attrs(
                rest,
            )
            &&& sgr_attrs(seq![seq![code], seq![2u16], part, other, wrong] + rest) == nothing
                + sgr_attrs(rest)
            &&& part[0] != 2 && part[0] != 5 ==> sgr_attrs(seq![seq![code], part] + rest) == nothing
                + sgr_attrs(rest)
        }),
{
    let two = seq![2u16];
    let five = seq![5u16];
    lemma_wrong_color(seq![seq![code]], 1);
    lemma_wrong_color(seq![seq![code], five], 2);
    lemma_wrong_color(seq![seq![code], two], 2);
    lemma_wrong_color(seq![seq![code], two, part], 3);
    lemma_wrong_color(seq![seq![code], two, part, other], 4);
    lemma_wrong_color(seq![seq![code], wrong] + rest, 2);
    lemma_wrong_color(seq![seq![code], five, wrong] + rest, 3);
    lemma_wrong_color(seq![seq![code], two, wrong] + rest, 3);
    lemma_wrong_color(seq![seq![code], two, part, wrong] + rest, 4);
    lemma_wrong_color(seq![seq![code], two, part, other, wrong] + rest, 5);
    if part[0] != 2 && part[0] != 5 {
        lemma_wrong_color(seq![seq![code], part] + rest, 2);
        assert((seq![seq![code], part] + rest).skip(2) =~= rest);
    }
    assert(sgr_attrs(seq![]) =~= seq![]);
    assert(seq![seq![code]].skip(1) =~= seq![]);
    assert(seq![seq![code], five].skip(2) =~= seq![]);
    assert(seq![seq![code], two].skip(2) =~= seq![]);
    assert(seq![seq![code], two, part].skip(3) =~= seq![]);
    assert(seq![seq![code], two, part, other].skip(4) =~= seq![]);
    assert((seq![seq![code], wrong] + rest).skip(2) =~= rest);
    assert((seq![seq![code], five, wrong] + rest).skip(3) =~= rest);
    assert((seq![seq![code], two, wrong] + rest).skip(3) =~= rest);
    assert((seq![seq![code], two, part, wrong] + rest).skip(4) =~= rest);
    assert((seq![seq![code], two, part, other, wrong] + rest).skip(5) =~= rest);
    let nothing = seq![None::<Attr>];
    assert(nothing + seq![] =~= nothing);
}

/// A color specification of `used` parameters that gives no color.
proof fn lemma_wrong_color(groups: Seq<Seq<u16>>, used: int)
    requires
        groups.len() > 0,
        groups[0] == seq![38u16] || groups[0] == seq![48u16],
        sgr_color(values_of(groups.skip(1))) == (None::<Color>, (used - 1) as nat),
        used >= 1,
    ensures
        sgr_attrs(groups) == seq![None::<Attr>] + sgr_attrs(groups.skip(used)),
{
}

/// A color may be given in subparameters as well, with or without a color space in front of its
/// values; more than six subparameters are not looked at.
pub proof fn law_colors_in_subparameters(group: Seq<u16>, rest: Seq<Seq<u16>>, start: int)
    requires
        group.len() >= 2,
        group[0] == 38 || group[0] == 48,
        start == if group.len() > 5 { 3int } else { 2int },
    ensures
        ({
            let attr = |color: Color|
                if group[0] == 38 {
                    Attr::Foreground(color)
                } else {
                    Attr::Background(color)
                };
            &&& group[1] == 2 && group.len() >= start + 3 && group[start] <= 255 && group[start + 1]
                <= 255 && group[start + 2] <= 255 ==> sgr_attrs(seq![group] + rest) == seq![
                Some(
                    attr(
                        Color::Spec(
                            Rgb {
                                r: group[start] as u8,
                                g: group[start + 1] as u8,
                                b: group[start + 2] as u8,
                            },
                        ),
                    ),
                ),
            ] + sgr_attrs(rest)
            &&& group[1] == 2 && !(group.len() >= start + 3 && group[start] <= 255 && group[start
                + 1] <= 255 && group[start + 2] <= 255) ==> sgr_attrs(seq![group] + rest) == seq![
                None::<Attr>,
            ] + sgr_attrs(rest)
            &&& group[1] == 5 && group.len() > start && group[start] <= 255 ==> sgr_attrs(
                seq![group] + rest,
            ) == seq![Some(attr(Color::Indexed(group[start] as u8)))] + sgr_attrs(rest)
            &&& group[1] == 5 && !(group.len() > start && group[start] <= 255) ==> sgr_attrs(
                seq![group] + rest,
            ) == seq![None::<Attr>] + sgr_attrs(rest)
            &&& group[1] != 2 && group[1] != 5 ==> sgr_attrs(seq![group] + rest) == seq![
                None::<Attr>,
            ] + sgr_attrs(rest)
        }),
{
    assert((seq![group] + rest).skip(1) =~= rest);
    let values = subparameter_values(group);
    assert(values[0] == group[1]);
    assert(values.len() == 1 + group.len() - start);
    assert(forall|i: int| 1 <= i < values.len() ==> #[trigger] values[i] == group[start + i - 1]);
}

} // verus!
