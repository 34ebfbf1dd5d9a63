//! Select Graphic Rendition: the text attributes that a control sequence sets.

use vstd::prelude::*;

use crate::attr::Attr;
use crate::color::{Color, NamedColor, Rgb};
use crate::params::ParamList;

verus! {

/// The color that a list of values specifies, and how many of the values belong to it.
///
/// `2` introduces a red, a green and a blue value, `5` the index of a color. A value that is
/// no color value ends the specification and belongs to it.
pub open spec fn sgr_color(values: Seq<u16>) -> (Option<Color>, nat) {
    if values.len() == 0 {
        (None, 0)
    } else if values[0] == 2 {
        if values.len() == 1 {
            (None, 1)
        } else if values[1] > 255 || values.len() == 2 {
            (None, 2)
        } else if values[2] > 255 || values.len() == 3 {
            (None, 3)
        } else if values[3] > 255 {
            (None, 4)
        } else {
            (
                Some(Color::Spec(Rgb { r: values[1] as u8, g: values[2] as u8, b: values[3] as u8 })),
                4,
            )
        }
    } else if values[0] == 5 {
        if values.len() == 1 {
            (None, 1)
        } else if values[1] > 255 {
            (None, 2)
        } else {
            (Some(Color::Indexed(values[1] as u8)), 2)
        }
    } else {
        (None, 1)
    }
}

/// The attribute that sets the color of the part of a character that `code` speaks of.
pub open spec fn color_attr(code: u16, color: Option<Color>) -> Option<Attr> {
    match color {
        Some(color) => Some(
            if code == 38 {
                Attr::Foreground(color)
            } else {
                Attr::Background(color)
            },
        ),
        None => None,
    }
}

/// The attribute of a parameter without subparameters, other than the ones that introduce a
/// color specification.
pub open spec fn sgr_code(code: u16) -> Option<Attr> {
    if code == 0 {
        Some(Attr::Reset)
    } else if code == 1 {
        Some(Attr::Bold)
    } else if code == 2 {
        Some(Attr::Dim)
    } else if code == 3 {
        Some(Attr::Italic)
    } else if code == 4 {
        Some(Attr::Underline)
    } else if code == 5 {
        Some(Attr::BlinkSlow)
    } else if code == 6 {
        Some(Attr::BlinkFast)
    } else if code == 7 {
        Some(Attr::Reverse)
    } else if code == 8 {
        Some(Attr::Hidden)
    } else if code == 9 {
        Some(Attr::Strike)
    } else if code == 21 {
        Some(Attr::CancelBold)
    } else if code == 22 {
        Some(Attr::CancelBoldDim)
    } else if code == 23 {
        Some(Attr::CancelItalic)
    } else if code == 24 {
        Some(Attr::CancelUnderline)
    } else if code == 25 {
        Some(Attr::CancelBlink)
    } else if code == 27 {
        Some(Attr::CancelReverse)
    } else if code == 28 {
        Some(Attr::CancelHidden)
    } else if code == 29 {
        Some(Attr::CancelStrike)
    } else if 30 <= code <= 37 {
        Some(Attr::Foreground(Color::Named(NamedColor::basics()[code - 30])))
    } else if code == 39 {
        Some(Attr::Foreground(Color::Named(NamedColor::Foreground)))
    } else if 40 <= code <= 47 {
        Some(Attr::Background(Color::Named(NamedColor::basics()[code - 40])))
    } else if code == 49 {
        Some(Attr::Background(Color::Named(NamedColor::Background)))
    } else if 90 <= code <= 97 {
        Some(Attr::Foreground(Color::Named(NamedColor::basics()[code - 90 + 8])))
    } else if 100 <= code <= 107 {
        Some(Attr::Background(Color::Named(NamedColor::basics()[code - 100 + 8])))
    } else {
        None
    }
}

/// Whether a parameter introduces a color specification that the next parameters give.
pub open spec fn introduces_color(group: Seq<u16>) -> bool {
    group.len() == 1 && (group[0] == 38 || group[0] == 48)
}

/// The values of the color specification that the subparameters of `group` give. A color
/// space between the kind of specification and the color values is skipped.
pub open spec fn subparameter_values(group: Seq<u16>) -> Seq<u16> {
    let start = if group.len() > 5 {
        3
    } else {
        2
    };
    seq![group[1]] + group.skip(start)
}

/// The attribute of a parameter that does not need the parameters behind it.
pub open spec fn sgr_attr(group: Seq<u16>) -> Option<Attr> {
    if group.len() == 1 {
        sgr_code(group[0])
    } else if group[0] == 4 {
        if group.len() == 2 && group[1] == 0 {
            Some(Attr::CancelUnderline)
        } else if group.len() == 2 && group[1] == 2 {
            Some(Attr::DoubleUnderline)
        } else {
            Some(Attr::Underline)
        }
    } else if group[0] == 38 || group[0] == 48 {
        color_attr(group[0], sgr_color(subparameter_values(group)).0)
    } else {
        None
    }
}

/// The values of parameters without their subparameters.
pub open spec fn values_of(groups: Seq<Seq<u16>>) -> Seq<u16> {
    groups.map_values(|group: Seq<u16>| group[0])
}

/// The attributes that parameters stand for, in order, with `None` for what stands for none.
pub open spec fn sgr_attrs(groups: Seq<Seq<u16>>) -> Seq<Option<Attr>>
    decreases groups.len(),
{
    if groups.len() == 0 {
        seq![]
    } else if introduces_color(groups[0]) {
        let (color, used) = sgr_color(values_of(groups.skip(1)));
        seq![color_attr(groups[0][0], color)] + sgr_attrs(groups.skip(1 + used as int))
    } else {
        seq![sgr_attr(groups[0])] + sgr_attrs(groups.skip(1))
    }
}

/// A color value that fits a byte.
fn color_value(value: u16) -> (byte: Option<u8>)
    ensures
        byte == if value <= 255 {
            Some(value as u8)
        } else {
            None::<u8>
        },
{
    if value <= 255 {
        Some(value as u8)
    } else {
        None
    }
}

/// Parse a color specifier from a list of values, and count the values that belong to it.
pub fn parse_sgr_color(values: &[u16]) -> (result: (Option<Color>, usize))
    ensures
        result.0 == sgr_color(values@).0,
        result.1 == sgr_color(values@).1,
{
    if values.len() == 0 {
        return (None, 0);
    }
    if values[0] == 2 {
        if values.len() == 1 {
            return (None, 1);
        }
        let r: u8 = match color_value(values[1]) {
            Some(r) => r,
            None => return (None, 2),
        };
        if values.len() == 2 {
            return (None, 2);
        }
        let g: u8 = match color_value(values[2]) {
            Some(g) => g,
            None => return (None, 3),
        };
        if values.len() == 3 {
            return (None, 3);
        }
        match color_value(values[3]) {
            Some(b) => (Some(Color::Spec(Rgb { r, g, b })), 4),
            None => (None, 4),
        }
    } else if values[0] == 5 {
        if values.len() == 1 {
            return (None, 1);
        }
        match color_value(values[1]) {
            Some(index) => (Some(Color::Indexed(index)), 2),
            None => (None, 2),
        }
    } else {
        (None, 1)
    }
}

/// The attribute that sets the color of the part of a character that `code` speaks of.
fn attr_for_color(code: u16, color: Option<Color>) -> (attr: Option<Attr>)
    ensures
        attr == color_attr(code, color),
{
    match color {
        Some(color) => if code == 38 {
            Some(Attr::Foreground(color))
        } else {
            Some(Attr::Background(color))
        },
        None => None,
    }
}

/// The attribute of a parameter without subparameters.
fn attr_for_code(code: u16) -> (attr: Option<Attr>)
    ensures
        attr == sgr_code(code),
{
    match code {
        0 => Some(Attr::Reset),
        1 => Some(Attr::Bold),
        2 => Some(Attr::Dim),
        3 => Some(Attr::Italic),
        4 => Some(Attr::Underline),
        5 => Some(Attr::BlinkSlow),
        6 => Some(Attr::BlinkFast),
        7 => Some(Attr::Reverse),
        8 => Some(Attr::Hidden),
        9 => Some(Attr::Strike),
        21 => Some(Attr::CancelBold),
        22 => Some(Attr::CancelBoldDim),
        23 => Some(Attr::CancelItalic),
        24 => Some(Attr::CancelUnderline),
        25 => Some(Attr::CancelBlink),
        27 => Some(Attr::CancelReverse),
        28 => Some(Attr::CancelHidden),
        29 => Some(Attr::CancelStrike),
        39 => Some(Attr::Foreground(Color::Named(NamedColor::Foreground))),
        49 => Some(Attr::Background(Color::Named(NamedColor::Background))),
        _ => if 30 <= code && code <= 37 {
            Some(Attr::Foreground(Color::Named(NamedColor::basic(code - 30))))
        } else if 40 <= code && code <= 47 {
            Some(Attr::Background(Color::Named(NamedColor::basic(code - 40))))
        } else if 90 <= code && code <= 97 {
            Some(Attr::Foreground(Color::Named(NamedColor::basic(code - 90 + 8))))
        } else if 100 <= code && code <= 107 {
            Some(Attr::Background(Color::Named(NamedColor::basic(code - 100 + 8))))
        } else {
            None
        },
    }
}

/// The attribute of a parameter that does not need the parameters behind it.
fn attr_for_group(group: &[u16]) -> (attr: Option<Attr>)
    requires
        group@.len() > 0,
    ensures
        attr == sgr_attr(group@),
{
    if group.len() == 1 {
        attr_for_code(group[0])
    } else if group[0] == 4 {
        if group.len() == 2 && group[1] == 0 {
            Some(Attr::CancelUnderline)
        } else if group.len() == 2 && group[1] == 2 {
            Some(Attr::DoubleUnderline)
        } else {
            Some(Attr::Underline)
        }
    } else if group[0] == 38 || group[0] == 48 {
        let start: usize = if group.len() > 5 {
            3
        } else {
            2
        };
        let mut values: Vec<u16> = Vec::new();
        values.push(group[1]);
        let mut i: usize = start;
        while i < group.len()
            invariant
                2 <= start <= i <= group@.len(),
                values@ == seq![group@[1]] + group@.subrange(start as int, i as int),
            decreases group@.len() - i,
        {
            values.push(group[i]);
            i += 1;
            assert(group@.subrange(start as int, i as int) =~= group@.subrange(
                start as int,
                i - 1,
            ).push(group@[i - 1]));
        }
        assert(values@ =~= subparameter_values(group@));
        attr_for_color(group[0], parse_sgr_color(values.as_slice()).0)
    } else {
        None
    }
}

/// The values of the parameters from the parameter number `start` on.
fn values_from(params: &ParamList, start: usize) -> (values: Vec<u16>)
    requires
        start <= params@.len(),
    ensures
        values@ == values_of(params@.skip(start as int)),
{
    let mut values: Vec<u16> = Vec::new();
    let mut i: usize = start;
    while i < params.count()
        invariant
            start <= i <= params@.len(),
            values@.len() == i - start,
            forall|j: int| 0 <= j < i - start ==> #[trigger] values@[j] == params@[start + j][0],
        decreases params@.len() - i,
    {
        values.push(params.value(i));
        i += 1;
    }
    assert(values@ =~= values_of(params@.skip(start as int)));
    values
}

/// The attributes that parameters stand for, in order, with `None` for what stands for none.
pub fn attrs_from_sgr_parameters(params: &ParamList) -> (attrs: Vec<Option<Attr>>)
    ensures
        attrs@ == sgr_attrs(params@),
{
    let mut attrs: Vec<Option<Attr>> = Vec::with_capacity(params.count());
    let mut i: usize = 0;
    assert(params@.skip(0) =~= params@);
    assert(attrs@ + sgr_attrs(params@) =~= sgr_attrs(params@));
    while i < params.count()
        invariant
            i <= params@.len(),
            attrs@ + sgr_attrs(params@.skip(i as int)) == sgr_attrs(params@),
        decreases params@.len() - i,
    {
        let group: &[u16] = params.group(i);
        let ghost rest = params@.skip(i as int);
        let ghost done = attrs@;
        assert(rest.skip(1) =~= params@.skip(i + 1));
        if group.len() == 1 && (group[0] == 38 || group[0] == 48) {
            let values: Vec<u16> = values_from(params, i + 1);
            let (color, used) = parse_sgr_color(values.as_slice());
            attrs.push(attr_for_color(group[0], color));
            assert(rest.skip(1 + used) =~= params@.skip(i + 1 + used));
            i = i + 1 + used;
        } else {
            attrs.push(attr_for_group(group));
            i += 1;
        }
        assert(attrs@ + sgr_attrs(params@.skip(i as int)) =~= done + sgr_attrs(rest));
    }
    assert(attrs@ + sgr_attrs(params@.skip(i as int)) =~= attrs@);
    attrs
}

/// Parameters that introduce no color stand for the same attributes, whatever follows them.
pub proof fn law_attrs_are_cumulative(first: Seq<Seq<u16>>, second: Seq<Seq<u16>>)
    requires
        forall|i: int| 0 <= i < first.len() ==> !introduces_color(#[trigger] first[i]),
    ensures
        sgr_attrs(first + second) == sgr_attrs(first) + sgr_attrs(second),
        sgr_attrs(first).len() == first.len(),
    decreases first.len(),
{
    if first.len() == 0 {
        assert(first + second =~= second);
        assert(sgr_attrs(first) + sgr_attrs(second) =~= sgr_attrs(second));
    } else {
        assert(!introduces_color(first[0]));
        law_attrs_are_cumulative(first.skip(1), second);
        assert((first + second).skip(1) =~= first.skip(1) + second);
        assert(sgr_attrs(first + second) =~= sgr_attrs(first) + sgr_attrs(second));
    }
}

/// There are no more attributes than parameters, and some for every parameter list that is
/// not empty.
pub proof fn law_attrs_are_no_more_than_parameters(groups: Seq<Seq<u16>>)
    ensures
        sgr_attrs(groups).len() <= groups.len(),
        groups.len() > 0 ==> sgr_attrs(groups).len() > 0,
    decreases groups.len(),
{
    if groups.len() > 0 {
        if introduces_color(groups[0]) {
            let used = sgr_color(values_of(groups.skip(1))).1;
            law_attrs_are_no_more_than_parameters(groups.skip(1 + used as int));
        } else {
            law_attrs_are_no_more_than_parameters(groups.skip(1));
        }
    }
}

/// A color may be given by the next parameters, by subparameters, or by subparameters with a
/// color space in front of the color values: `38;2;r;g;b`, `38:2:r:g:b` and `38:2:s:r:g:b`
/// stand for the same, for the foreground as for the background.
pub proof fn law_true_color_notations_agree(
    code: u16,
    space: u16,
    r: u8,
    g: u8,
    b: u8,
    rest: Seq<Seq<u16>>,
)
    requires
        code == 38 || code == 48,
    ensures
        ({
            let attr = color_attr(code, Some(Color::Spec(Rgb { r, g, b })));
            let attrs = seq![attr] + sgr_attrs(rest);
            &&& sgr_attrs(
                seq![seq![code], seq![2u16], seq![r as u16], seq![g as u16], seq![b as u16]] + rest,
            ) == attrs
            &&& sgr_attrs(seq![seq![code, 2u16, r as u16, g as u16, b as u16]] + rest) == attrs
            &&& sgr_attrs(seq![seq![code, 2u16, space, r as u16, g as u16, b as u16]] + rest) == attrs
        }),
{
    let params = seq![seq![code], seq![2u16], seq![r as u16], seq![g as u16], seq![b as u16]] + rest;
    let values = values_of(params.skip(1));
    assert(values[0] == 2 && values[1] == r && values[2] == g && values[3] == b);
    assert(params.skip(5) =~= rest);

    let short = seq![code, 2u16, r as u16, g as u16, b as u16];
    assert(subparameter_values(short) =~= seq![2u16, r as u16, g as u16, b as u16]);
    assert((seq![short] + rest).skip(1) =~= rest);

    let long = seq![code, 2u16, space, r as u16, g as u16, b as u16];
    assert(subparameter_values(long) =~= seq![2u16, r as u16, g as u16, b as u16]);
    assert((seq![long] + rest).skip(1) =~= rest);
}

/// An indexed color may be given by the next parameters or by subparameters: `38;5;n` and
/// `38:5:n` stand for the same, for the foreground as for the background.
pub proof fn law_indexed_color_notations_agree(code: u16, index: u8, rest: Seq<Seq<u16>>)
    requires
        code == 38 || code == 48,
    ensures
        ({
            let attrs = seq![color_attr(code, Some(Color::Indexed(index)))] + sgr_attrs(rest);
            &&& sgr_attrs(seq![seq![code], seq![5u16], seq![index as u16]] + rest) == attrs
            &&& sgr_attrs(seq![seq![code, 5u16, index as u16]] + rest) == attrs
        }),
{
    let params = seq![seq![code], seq![5u16], seq![index as u16]] + rest;
    let values = values_of(params.skip(1));
    assert(values[0] == 5 && values[1] == index);
    assert(params.skip(3) =~= rest);

    let short = seq![code, 5u16, index as u16];
    assert(subparameter_values(short) =~= seq![5u16, index as u16]);
    assert((seq![short] + rest).skip(1) =~= rest);
}

} // verus!
