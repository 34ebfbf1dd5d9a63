//! Laws of operating system commands.

use vstd::prelude::*;
use vstd::string::*;
use vstd::utf8::*;

use crate::action::ActionView;
use crate::color::{NamedColor, Rgb};
use crate::cursor::CursorShape;
use crate::laws::number::law_signed_number_round_trip;
use crate::laws::text::{law_texts_are_joined_in_order, law_trimming, law_utf8};
use crate::laws::xcolor::law_legacy_colors;
use crate::number::{
    byte_number, decimal_numeral, is_numeral, law_byte_number_round_trip,
    law_decimal_numeral_has_its_value, numeral_value, signed_number,
};
use crate::osc::{
    first_indexed_color, keyed_actions, osc_actions, text_action,
};
use crate::text::{decoded_all, is_white_space, joined, trimmed};
use crate::xcolor::x_color;

verus! {

/// The codes of the commands, byte by byte.
proof fn lemma_codes()
    ensures
        "0".spec_bytes().len() == 1,
        "0".spec_bytes()[0] == '0' as u8,
        "2".spec_bytes().len() == 1,
        "2".spec_bytes()[0] == '2' as u8,
        "4".spec_bytes().len() == 1,
        "4".spec_bytes()[0] == '4' as u8,
        "10".spec_bytes().len() == 2,
        "10".spec_bytes()[0] == '1' as u8,
        "10".spec_bytes()[1] == '0' as u8,
        "11".spec_bytes().len() == 2,
        "11".spec_bytes()[0] == '1' as u8,
        "11".spec_bytes()[1] == '1' as u8,
        "12".spec_bytes().len() == 2,
        "12".spec_bytes()[0] == '1' as u8,
        "12".spec_bytes()[1] == '2' as u8,
        "50".spec_bytes().len() == 2,
        "50".spec_bytes()[0] == '5' as u8,
        "50".spec_bytes()[1] == '0' as u8,
        "104".spec_bytes().len() == 3,
        "104".spec_bytes()[0] == '1' as u8,
        "104".spec_bytes()[1] == '0' as u8,
        "104".spec_bytes()[2] == '4' as u8,
        "110".spec_bytes().len() == 3,
        "110".spec_bytes()[0] == '1' as u8,
        "110".spec_bytes()[1] == '1' as u8,
        "110".spec_bytes()[2] == '0' as u8,
        "111".spec_bytes().len() == 3,
        "111".spec_bytes()[0] == '1' as u8,
        "111".spec_bytes()[1] == '1' as u8,
        "111".spec_bytes()[2] == '1' as u8,
        "112".spec_bytes().len() == 3,
        "112".spec_bytes()[0] == '1' as u8,
        "112".spec_bytes()[1] == '1' as u8,
        "112".spec_bytes()[2] == '2' as u8,
        "697".spec_bytes().len() == 3,
        "697".spec_bytes()[0] == '6' as u8,
        "697".spec_bytes()[1] == '9' as u8,
        "697".spec_bytes()[2] == '7' as u8,
{
    reveal_strlit("0");
    assert(is_ascii("0"));
    reveal_strlit("2");
    assert(is_ascii("2"));
    reveal_strlit("4");
    assert(is_ascii("4"));
    reveal_strlit("10");
    assert(is_ascii("10"));
    reveal_strlit("11");
    assert(is_ascii("11"));
    reveal_strlit("12");
    assert(is_ascii("12"));
    reveal_strlit("50");
    assert(is_ascii("50"));
    reveal_strlit("104");
    assert(is_ascii("104"));
    reveal_strlit("110");
    assert(is_ascii("110"));
    reveal_strlit("111");
    assert(is_ascii("111"));
    reveal_strlit("112");
    assert(is_ascii("112"));
    reveal_strlit("697");
    assert(is_ascii("697"));
}

/// The words of the shell integration, as far as they are told apart.
proof fn lemma_words()
    ensures
        "Dir".spec_bytes().len() == 3,
        "Dir".spec_bytes()[0] == 'D' as u8,
        "ShellPath".spec_bytes().len() == 9,
        "ShellPath".spec_bytes()[0] == 'S' as u8,
        "WSLDistro".spec_bytes().len() == 9,
        "WSLDistro".spec_bytes()[0] == 'W' as u8,
        "Shell".spec_bytes().len() == 5,
        "Shell".spec_bytes()[0] == 'S' as u8,
        "FishSuggestionColor".spec_bytes().len() == 19,
        "FishSuggestionColor".spec_bytes()[0] == 'F' as u8,
        "ZshAutosuggestionColor".spec_bytes().len() == 22,
        "ZshAutosuggestionColor".spec_bytes()[0] == 'Z' as u8,
        "FigAutosuggestionColor".spec_bytes().len() == 22,
        "FigAutosuggestionColor".spec_bytes()[0] == 'F' as u8,
        "NuHintColor".spec_bytes().len() == 11,
        "NuHintColor".spec_bytes()[0] == 'N' as u8,
        "TTY".spec_bytes().len() == 3,
        "TTY".spec_bytes()[0] == 'T' as u8,
        "User".spec_bytes().len() == 4,
        "User".spec_bytes()[0] == 'U' as u8,
        "Log".spec_bytes().len() == 3,
        "Log".spec_bytes()[0] == 'L' as u8,
        "NewCmd".spec_bytes().len() == 6,
        "NewCmd".spec_bytes()[0] == 'N' as u8,
        "OSCLock".spec_bytes().len() == 7,
        "OSCLock".spec_bytes()[0] == 'O' as u8,
        "OSCUnlock".spec_bytes().len() == 9,
        "OSCUnlock".spec_bytes()[0] == 'O' as u8,
        "ExitCode".spec_bytes().len() == 8,
        "ExitCode".spec_bytes()[0] == 'E' as u8,
        "PID".spec_bytes().len() == 3,
        "PID".spec_bytes()[0] == 'P' as u8,
        "StartPrompt".spec_bytes().len() == 11,
        "StartPrompt".spec_bytes()[0] == 'S' as u8,
        "EndPrompt".spec_bytes().len() == 9,
        "EndPrompt".spec_bytes()[0] == 'E' as u8,
        "PreExec".spec_bytes().len() == 7,
        "PreExec".spec_bytes()[0] == 'P' as u8,
        !"Dir".spec_bytes().contains('=' as u8),
        !"ShellPath".spec_bytes().contains('=' as u8),
        !"WSLDistro".spec_bytes().contains('=' as u8),
        !"Shell".spec_bytes().contains('=' as u8),
        !"FishSuggestionColor".spec_bytes().contains('=' as u8),
        !"ZshAutosuggestionColor".spec_bytes().contains('=' as u8),
        !"FigAutosuggestionColor".spec_bytes().contains('=' as u8),
        !"NuHintColor".spec_bytes().contains('=' as u8),
        !"TTY".spec_bytes().contains('=' as u8),
        !"User".spec_bytes().contains('=' as u8),
        !"Log".spec_bytes().contains('=' as u8),
        !"NewCmd".spec_bytes().contains('=' as u8),
        !"OSCLock".spec_bytes().contains('=' as u8),
        !"OSCUnlock".spec_bytes().contains('=' as u8),
        !"ExitCode".spec_bytes().contains('=' as u8),
        !"PID".spec_bytes().contains('=' as u8),
        !"StartPrompt".spec_bytes().contains('=' as u8),
        !"EndPrompt".spec_bytes().contains('=' as u8),
        !"PreExec".spec_bytes().contains('=' as u8),
{
    reveal_strlit("Dir");
    assert(is_ascii("Dir"));
    reveal_strlit("ShellPath");
    assert(is_ascii("ShellPath"));
    reveal_strlit("WSLDistro");
    assert(is_ascii("WSLDistro"));
    reveal_strlit("Shell");
    assert(is_ascii("Shell"));
    reveal_strlit("FishSuggestionColor");
    assert(is_ascii("FishSuggestionColor"));
    reveal_strlit("ZshAutosuggestionColor");
    assert(is_ascii("ZshAutosuggestionColor"));
    reveal_strlit("FigAutosuggestionColor");
    assert(is_ascii("FigAutosuggestionColor"));
    reveal_strlit("NuHintColor");
    assert(is_ascii("NuHintColor"));
    reveal_strlit("TTY");
    assert(is_ascii("TTY"));
    reveal_strlit("User");
    assert(is_ascii("User"));
    reveal_strlit("Log");
    assert(is_ascii("Log"));
    reveal_strlit("NewCmd");
    assert(is_ascii("NewCmd"));
    reveal_strlit("OSCLock");
    assert(is_ascii("OSCLock"));
    reveal_strlit("OSCUnlock");
    assert(is_ascii("OSCUnlock"));
    reveal_strlit("ExitCode");
    assert(is_ascii("ExitCode"));
    reveal_strlit("PID");
    assert(is_ascii("PID"));
    reveal_strlit("StartPrompt");
    assert(is_ascii("StartPrompt"));
    reveal_strlit("EndPrompt");
    assert(is_ascii("EndPrompt"));
    reveal_strlit("PreExec");
    assert(is_ascii("PreExec"));
}

/// A command without a code asks for nothing, and one with an unknown code is passed on.
pub proof fn law_unknown_commands_are_passed_on(fields: Seq<Seq<u8>>, bell: bool)
    ensures
        fields.len() == 0 || fields[0].len() == 0 ==> osc_actions(fields, bell) == Seq::<
            ActionView,
        >::empty(),
        fields.len() > 0 && fields[0].len() > 0 && fields[0] != "0".spec_bytes() && fields[0]
            != "2".spec_bytes() && fields[0] != "4".spec_bytes() && fields[0] != "10".spec_bytes()
            && fields[0] != "11".spec_bytes() && fields[0] != "12".spec_bytes() && fields[0]
            != "50".spec_bytes() && fields[0] != "104".spec_bytes() && fields[0]
            != "110".spec_bytes() && fields[0] != "111".spec_bytes() && fields[0]
            != "112".spec_bytes() && fields[0] != "697".spec_bytes() ==> osc_actions(fields, bell)
            == seq![ActionView::UnhandledOscDispatch(fields, bell)],
{
}

/// `0` and `2` set the title: the texts of the fields behind the code with semicolons between
/// them, without the white space around. Without a field they are passed on.
pub proof fn law_titles(fields: Seq<Seq<u8>>, bell: bool)
    requires
        fields.len() > 0,
        fields[0] == "0".spec_bytes() || fields[0] == "2".spec_bytes(),
    ensures
        fields.len() >= 2 ==> osc_actions(fields, bell) == seq![
            ActionView::SetTitle(Some(trimmed(joined(decoded_all(fields.skip(1)), ";"@)))),
        ],
        fields.len() == 1 ==> osc_actions(fields, bell) == seq![
            ActionView::UnhandledOscDispatch(fields, bell),
        ],
{
    lemma_codes();
}

/// The title is the text of the field, without the white space around it, whatever else is in
/// it. With two fields it is both their texts with a semicolon between them.
pub proof fn law_title_texts(
    code: Seq<u8>,
    before: Seq<char>,
    text: Seq<char>,
    other: Seq<char>,
    after: Seq<char>,
    bell: bool,
)
    requires
        code == "0".spec_bytes() || code == "2".spec_bytes(),
        forall|i: int| 0 <= i < before.len() ==> is_white_space(#[trigger] before[i]),
        forall|i: int| 0 <= i < after.len() ==> is_white_space(#[trigger] after[i]),
        text.len() > 0 && !is_white_space(text.first()) && !is_white_space(text.last()),
        other.len() > 0 && !is_white_space(other.last()),
    ensures
        osc_actions(seq![code, encode_utf8(before + text + after)], bell) == seq![
            ActionView::SetTitle(Some(text)),
        ],
        osc_actions(
            seq![code, encode_utf8(before + text), encode_utf8(other + after)],
            bell,
        ) == seq![ActionView::SetTitle(Some(text + seq![';'] + other))],
{
    let none = Seq::<Seq<u8>>::empty();
    let bad = seq![0xffu8];
    let one = seq![code, encode_utf8(before + text + after)];
    let two = seq![code, encode_utf8(before + text), encode_utf8(other + after)];
    reveal_strlit(";");
    assert(";"@ =~= seq![';']);
    law_titles(one, bell);
    law_titles(two, bell);
    law_utf8(before + text + after, bad);
    law_utf8(before + text, bad);
    law_utf8(other + after, bad);

    let first = seq![encode_utf8(before + text + after)];
    assert(one.skip(1) =~= first);
    assert(first.drop_last() =~= none);
    assert(decoded_all(first.drop_last()) == Seq::<Seq<char>>::empty());
    assert(decoded_all(first) =~= seq![before + text + after]);
    law_trimming(before, text, after);

    let left = seq![encode_utf8(before + text)];
    let both = left.push(encode_utf8(other + after));
    assert(two.skip(1) =~= both);
    assert(left.drop_last() =~= none);
    assert(decoded_all(left.drop_last()) == Seq::<Seq<char>>::empty());
    assert(decoded_all(left) =~= seq![before + text]);
    assert(both.drop_last() =~= left);
    assert(decoded_all(both) =~= seq![before + text].push(other + after));
    law_texts_are_joined_in_order(seq![before + text], other + after, ";"@);
    assert(joined(seq![before + text], ";"@) == before + text);
    let inner = text + seq![';'] + other;
    assert(before + text + seq![';'] + (other + after) =~= before + inner + after);
    assert(inner.first() == text.first() && inner.last() == other.last());
    law_trimming(before, inner, after);
}

/// `4` sets the color with the index that the next field gives to the color that the field
/// behind it gives. The first such pair counts.
pub proof fn law_palette_color(
    index: Seq<u8>,
    n: u8,
    color: Seq<u8>,
    rgb: Rgb,
    rest: Seq<Seq<u8>>,
    bell: bool,
)
    requires
        byte_number(index) == Some(n),
        x_color(color) == Some(rgb),
        rest.len() % 2 == 0,
    ensures
        osc_actions(seq!["4".spec_bytes(), index, color] + rest, bell) == seq![
            ActionView::SetColor(n as usize, rgb),
        ],
{
    let fields = seq!["4".spec_bytes(), index, color] + rest;
    lemma_codes();
    assert(fields[0] == "4".spec_bytes());
    assert(fields[1] == index && fields[2] == color);
    assert(fields.len() % 2 == 1);
}

/// With a color `#rrggbb`, the parts of the color that is set are the numbers `rr`, `gg` and
/// `bb`.
pub proof fn law_palette_color_in_hexadecimal(
    n: nat,
    r: Seq<u8>,
    g: Seq<u8>,
    b: Seq<u8>,
    bell: bool,
)
    requires
        n <= 255,
        is_numeral(r, 16) && r.len() == 2,
        is_numeral(g, 16) && g.len() == 2,
        is_numeral(b, 16) && b.len() == 2,
    ensures
        osc_actions(
            seq!["4".spec_bytes(), decimal_numeral(n), seq!['#' as u8] + r + g + b],
            bell,
        ) == seq![
            ActionView::SetColor(
                n as usize,
                Rgb {
                    r: numeral_value(r, 16) as u8,
                    g: numeral_value(g, 16) as u8,
                    b: numeral_value(b, 16) as u8,
                },
            ),
        ],
{
    let color = seq!['#' as u8] + r + g + b;
    let fields = seq!["4".spec_bytes(), decimal_numeral(n), color];
    law_legacy_colors(r, g, b);
    law_byte_number_round_trip(n);
    law_palette_color(decimal_numeral(n), n as u8, color, x_color(color)->0, seq![], bell);
    assert(fields + Seq::<Seq<u8>>::empty() =~= fields);
}

/// The first pair does not depend on how many fields stand before it.
proof fn lemma_shifted_pairs(fields: Seq<Seq<u8>>, longer: Seq<Seq<u8>>, i: int)
    requires
        i >= 0,
        longer.len() == fields.len() + 2,
        forall|j: int| i <= j < fields.len() ==> longer[j + 2] == #[trigger] fields[j],
    ensures
        first_indexed_color(longer, i + 2) == first_indexed_color(fields, i),
    decreases fields.len() - i,
{
    if i + 1 < fields.len() {
        assert(longer[i + 2] == fields[i] && longer[i + 1 + 2] == fields[i + 1]);
        lemma_shifted_pairs(fields, longer, i + 2);
    }
}

/// A pair that gives no index or no color is left out: what it leaves is what the fields behind
/// it ask for, and the command is passed on if there are none, or if they do not come in pairs.
pub proof fn law_wrong_pairs_are_left_out(
    index: Seq<u8>,
    color: Seq<u8>,
    rest: Seq<Seq<u8>>,
    bell: bool,
    n: usize,
    rgb: Rgb,
)
    requires
        byte_number(index) is None || x_color(color) is None,
    ensures
        osc_actions(seq!["4".spec_bytes(), index, color] + rest, bell) == seq![
            ActionView::SetColor(n, rgb),
        ] <==> osc_actions(seq!["4".spec_bytes()] + rest, bell) == seq![
            ActionView::SetColor(n, rgb),
        ],
        rest.len() == 0 ==> osc_actions(seq!["4".spec_bytes(), index, color] + rest, bell) == seq![
            ActionView::UnhandledOscDispatch(seq!["4".spec_bytes(), index, color] + rest, bell),
        ],
        rest.len() % 2 == 1 ==> osc_actions(seq!["4".spec_bytes()] + rest, bell) == seq![
            ActionView::UnhandledOscDispatch(seq!["4".spec_bytes()] + rest, bell),
        ],
{
    let fields = seq!["4".spec_bytes()] + rest;
    let longer = seq!["4".spec_bytes(), index, color] + rest;
    lemma_codes();
    assert(fields[0] == "4".spec_bytes() && longer[0] == "4".spec_bytes());
    assert(longer[1] == index && longer[2] == color);
    lemma_shifted_pairs(fields, longer, 1);
    let set = ActionView::SetColor(n, rgb);
    assert(seq![set][0] == set);
    let a = osc_actions(fields, bell);
    let b = osc_actions(longer, bell);
    assert(a.len() == 1 && b.len() == 1);
    assert(a == seq![set] <==> a[0] == set) by {
        assert(a =~= seq![a[0]]);
    }
    assert(b == seq![set] <==> b[0] == set) by {
        assert(b =~= seq![b[0]]);
    }
}

/// `10`, `11` and `12` set the colors of the text, the screen and the cursor, beginning with the
/// one that the code names and going on to the next one with each field. A field that gives no
/// color is passed on, and so is one field behind the cursor's; what follows it is left out.
pub proof fn law_dynamic_colors(fields: Seq<Seq<u8>>, bell: bool, first: NamedColor, j: int)
    requires
        fields.len() >= 1,
        ({
            ||| fields[0] == "10".spec_bytes() && first == NamedColor::Foreground
            ||| fields[0] == "11".spec_bytes() && first == NamedColor::Background
            ||| fields[0] == "12".spec_bytes() && first == NamedColor::Cursor
        }),
    ensures
        ({
            let start = if first == NamedColor::Foreground {
                256int
            } else if first == NamedColor::Background {
                257int
            } else {
                258int
            };
            let actions = osc_actions(fields, bell);
            let unhandled = ActionView::UnhandledOscDispatch(fields, bell);
            &&& fields.len() == 1 ==> actions == seq![unhandled]
            &&& 1 < fields.len() <= 260 - start ==> actions.len() == fields.len() - 1
            &&& fields.len() > 260 - start ==> actions.len() == 260 - start
            &&& 0 <= j < fields.len() - 1 && start + j <= 258 ==> actions[j] == if x_color(
                fields[j + 1],
            ) is Some {
                ActionView::SetColor((start + j) as usize, x_color(fields[j + 1])->0)
            } else {
                unhandled
            }
            &&& fields.len() > 260 - start ==> actions[259 - start] == unhandled
        }),
{
    lemma_codes();
}

/// `50` sets the shape of the cursor that the digit behind `CursorShape=` names, and is passed on
/// where it names none.
pub proof fn law_cursor_shapes(digit: u8, behind: Seq<u8>, rest: Seq<Seq<u8>>, bell: bool)
    ensures
        ({
            let shape = "CursorShape=".spec_bytes() + seq![digit] + behind;
            let fields = seq!["50".spec_bytes(), shape] + rest;
            osc_actions(fields, bell) == seq![
                if digit == '0' as u8 {
                    ActionView::SetCursorShape(CursorShape::Block)
                } else if digit == '1' as u8 {
                    ActionView::SetCursorShape(CursorShape::Beam)
                } else if digit == '2' as u8 {
                    ActionView::SetCursorShape(CursorShape::Underline)
                } else {
                    ActionView::UnhandledOscDispatch(fields, bell)
                },
            ]
        }),
{
    let shape = "CursorShape=".spec_bytes() + seq![digit] + behind;
    let fields = seq!["50".spec_bytes(), shape] + rest;
    lemma_codes();
    reveal_strlit("CursorShape=");
    assert(is_ascii("CursorShape="));
    assert("CursorShape=".spec_bytes().len() == 12);
    assert(fields[0] == "50".spec_bytes() && fields[1] == shape);
    assert(shape.take(12) =~= "CursorShape=".spec_bytes());
    assert(shape[12] == digit);
}

/// `50` is passed on without a field, and with one that does not begin with `CursorShape=` and a
/// digit.
pub proof fn law_other_cursor_shapes_are_passed_on(fields: Seq<Seq<u8>>, bell: bool)
    requires
        fields.len() >= 1,
        fields[0] == "50".spec_bytes(),
        fields.len() >= 2 ==> fields[1].len() <= 12 || fields[1].take(12)
            != "CursorShape=".spec_bytes(),
    ensures
        osc_actions(fields, bell) == seq![ActionView::UnhandledOscDispatch(fields, bell)],
{
    lemma_codes();
}

/// `104` resets the colors whose indexes its fields give, in their order, and is passed on once
/// for each field that gives none. Without a field it resets the whole palette.
pub proof fn law_palette_resets(fields: Seq<Seq<u8>>, bell: bool, j: int)
    requires
        fields.len() >= 1,
        fields[0] == "104".spec_bytes(),
    ensures
        ({
            let actions = osc_actions(fields, bell);
            &&& fields.len() > 1 ==> actions.len() == fields.len() - 1
            &&& 0 <= j < fields.len() - 1 ==> actions[j] == if byte_number(fields[j + 1]) is Some {
                ActionView::ResetColor(byte_number(fields[j + 1])->0 as usize)
            } else {
                ActionView::UnhandledOscDispatch(fields, bell)
            }
            &&& fields.len() == 1 ==> actions.len() == 256
            &&& fields.len() == 1 && 0 <= j < 256 ==> actions[j] == ActionView::ResetColor(
                j as usize,
            )
        }),
{
    lemma_codes();
}

/// `110`, `111` and `112` reset the colors of the text, the screen and the cursor.
pub proof fn law_dynamic_color_resets(fields: Seq<Seq<u8>>, bell: bool)
    requires
        fields.len() >= 1,
    ensures
        fields[0] == "110".spec_bytes() ==> osc_actions(fields, bell) == seq![
            ActionView::ResetColor(256),
        ],
        fields[0] == "111".spec_bytes() ==> osc_actions(fields, bell) == seq![
            ActionView::ResetColor(257),
        ],
        fields[0] == "112".spec_bytes() ==> osc_actions(fields, bell) == seq![
            ActionView::ResetColor(258),
        ],
{
    lemma_codes();
}

/// The words of the shell integration that come without a value.
pub proof fn law_shell_words(fields: Seq<Seq<u8>>, bell: bool)
    requires
        fields.len() >= 1,
        fields[0] == "697".spec_bytes(),
    ensures
        fields.len() == 1 ==> osc_actions(fields, bell) == Seq::<ActionView>::empty(),
        fields.len() >= 2 && fields[1] == "NewCmd".spec_bytes() ==> osc_actions(fields, bell) == seq![
            ActionView::NewCmd(seq![]),
        ],
        fields.len() >= 2 && fields[1] == "StartPrompt".spec_bytes() ==> osc_actions(fields, bell)
            == seq![ActionView::StartPrompt],
        fields.len() >= 2 && fields[1] == "EndPrompt".spec_bytes() ==> osc_actions(fields, bell)
            == seq![ActionView::EndPrompt],
        fields.len() >= 2 && fields[1] == "PreExec".spec_bytes() ==> osc_actions(fields, bell)
            == seq![ActionView::PreExec],
        fields.len() >= 2 && !fields[1].contains('=' as u8) && fields[1] != "NewCmd".spec_bytes()
            && fields[1] != "StartPrompt".spec_bytes() && fields[1] != "EndPrompt".spec_bytes()
            && fields[1] != "PreExec".spec_bytes() ==> osc_actions(fields, bell) == Seq::<
            ActionView,
        >::empty(),
{
    lemma_codes();
    lemma_words();
    if fields.len() >= 2 {
        fields[1].index_of_first_ensures('=' as u8);
    }
}

/// What stands before the first `=` is the key, and what stands behind it the value.
proof fn lemma_key_and_value(key: Seq<u8>, value: Seq<u8>, rest: Seq<Seq<u8>>, bell: bool)
    requires
        !key.contains('=' as u8),
    ensures
        ({
            let field = key + seq!['=' as u8] + value;
            let fields = seq!["697".spec_bytes(), field] + rest;
            let unhandled = ActionView::UnhandledOscDispatch(fields, bell);
            osc_actions(fields, bell) == if value.len() == 0 {
                seq![unhandled]
            } else {
                keyed_actions(key, value, unhandled)
            }
        }),
{
    let equals = '=' as u8;
    let field = key + seq![equals] + value;
    let fields = seq!["697".spec_bytes(), field] + rest;
    lemma_codes();
    lemma_words();
    assert(fields[0] == "697".spec_bytes() && fields[1] == field);
    assert(field[key.len() as int] == equals);
    assert(field.contains(equals));
    field.index_of_first_ensures(equals);
    let first = field.index_of_first(equals)->0;
    assert forall|j: int| 0 <= j < key.len() implies field[j] != equals by {
        assert(key.contains(key[j]));
    }
    assert(first == key.len());
    assert(field.take(first) =~= key);
    assert(field.skip(first + 1) =~= value);
}

/// A key that comes with a text.
proof fn lemma_text_value(key: Seq<u8>, text: Seq<char>, rest: Seq<Seq<u8>>, bell: bool)
    requires
        !key.contains('=' as u8),
        text.len() > 0,
        key != "ExitCode".spec_bytes(),
        key != "PID".spec_bytes(),
        text_action(key, seq![]) is Some,
    ensures
        osc_actions(
            seq!["697".spec_bytes(), key + seq!['=' as u8] + encode_utf8(text)] + rest,
            bell,
        ) == seq![text_action(key, text)->0],
{
    lemma_key_and_value(key, encode_utf8(text), rest, bell);
    encode_utf8_valid_utf8(text);
    encode_utf8_decode_utf8(text);
    if encode_utf8(text).len() == 0 {
        assert(encode_utf8(text) =~= encode_utf8(seq![]));
        encode_utf8_decode_utf8(seq![]);
    }
}

/// The shell integration hands the text behind the `=` on, whatever is in it, to what the key
/// before it is about.
pub proof fn law_shell_texts(text: Seq<char>, rest: Seq<Seq<u8>>, bell: bool)
    requires
        text.len() > 0,
    ensures
        ({
            let equals = seq!['=' as u8];
            &&& osc_actions(
                seq!["697".spec_bytes(), "Dir".spec_bytes() + equals + encode_utf8(text)] + rest,
                bell,
            ) == seq![ActionView::Dir(text)]
            &&& osc_actions(
                seq![
                    "697".spec_bytes(),
                    "ShellPath".spec_bytes() + equals + encode_utf8(text),
                ] + rest,
                bell,
            ) == seq![ActionView::ShellPath(text)]
            &&& osc_actions(
                seq![
                    "697".spec_bytes(),
                    "WSLDistro".spec_bytes() + equals + encode_utf8(text),
                ] + rest,
                bell,
            ) == seq![ActionView::WslDistro(text)]
            &&& osc_actions(
                seq!["697".spec_bytes(), "Shell".spec_bytes() + equals + encode_utf8(text)] + rest,
                bell,
            ) == seq![ActionView::Shell(text)]
            &&& osc_actions(
                seq![
                    "697".spec_bytes(),
                    "FishSuggestionColor".spec_bytes() + equals + encode_utf8(text),
                ] + rest,
                bell,
            ) == seq![ActionView::FishSuggestionColor(text)]
            &&& osc_actions(
                seq![
                    "697".spec_bytes(),
                    "ZshAutosuggestionColor".spec_bytes() + equals + encode_utf8(text),
                ] + rest,
                bell,
            ) == seq![ActionView::ZshSuggestionColor(text)]
            &&& osc_actions(
                seq![
                    "697".spec_bytes(),
                    "FigAutosuggestionColor".spec_bytes() + equals + encode_utf8(text),
                ] + rest,
                bell,
            ) == seq![ActionView::FigSuggestionColor(text)]
            &&& osc_actions(
                seq![
                    "697".spec_bytes(),
                    "NuHintColor".spec_bytes() + equals + encode_utf8(text),
                ] + rest,
                bell,
            ) == seq![ActionView::NuHintColor(text)]
            &&& osc_actions(
                seq!["697".spec_bytes(), "TTY".spec_bytes() + equals + encode_utf8(text)] + rest,
                bell,
            ) == seq![ActionView::Tty(text)]
            &&& osc_actions(
                seq!["697".spec_bytes(), "User".spec_bytes() + equals + encode_utf8(text)] + rest,
                bell,
            ) == seq![ActionView::Username(text)]
            &&& osc_actions(
                seq!["697".spec_bytes(), "Log".spec_bytes() + equals + encode_utf8(text)] + rest,
                bell,
            ) == seq![ActionView::Log(text)]
            &&& osc_actions(
                seq!["697".spec_bytes(), "NewCmd".spec_bytes() + equals + encode_utf8(text)] + rest,
                bell,
            ) == seq![ActionView::NewCmd(text)]
            &&& osc_actions(
                seq![
                    "697".spec_bytes(),
                    "OSCLock".spec_bytes() + equals + encode_utf8(text),
                ] + rest,
                bell,
            ) == seq![ActionView::OscLock(text)]
            &&& osc_actions(
                seq![
                    "697".spec_bytes(),
                    "OSCUnlock".spec_bytes() + equals + encode_utf8(text),
                ] + rest,
                bell,
            ) == seq![ActionView::OscUnlock(text)]
        }),
{
    lemma_words();
    lemma_text_value("Dir".spec_bytes(), text, rest, bell);
    lemma_text_value("ShellPath".spec_bytes(), text, rest, bell);
    lemma_text_value("WSLDistro".spec_bytes(), text, rest, bell);
    lemma_text_value("Shell".spec_bytes(), text, rest, bell);
    lemma_text_value("FishSuggestionColor".spec_bytes(), text, rest, bell);
    lemma_text_value("ZshAutosuggestionColor".spec_bytes(), text, rest, bell);
    lemma_text_value("FigAutosuggestionColor".spec_bytes(), text, rest, bell);
    lemma_text_value("NuHintColor".spec_bytes(), text, rest, bell);
    lemma_text_value("TTY".spec_bytes(), text, rest, bell);
    lemma_text_value("User".spec_bytes(), text, rest, bell);
    lemma_text_value("Log".spec_bytes(), text, rest, bell);
    lemma_text_value("NewCmd".spec_bytes(), text, rest, bell);
    lemma_text_value("OSCLock".spec_bytes(), text, rest, bell);
    lemma_text_value("OSCUnlock".spec_bytes(), text, rest, bell);
}

/// A value that is no text is passed over where the key comes with a text.
pub proof fn law_values_that_are_no_text(
    key: Seq<u8>,
    value: Seq<u8>,
    rest: Seq<Seq<u8>>,
    bell: bool,
)
    requires
        !key.contains('=' as u8),
        value.len() > 0,
        !valid_utf8(value),
        ({
            ||| key == "Dir".spec_bytes()
            ||| key == "ShellPath".spec_bytes()
            ||| key == "WSLDistro".spec_bytes()
            ||| key == "Shell".spec_bytes()
            ||| key == "FishSuggestionColor".spec_bytes()
            ||| key == "ZshAutosuggestionColor".spec_bytes()
            ||| key == "FigAutosuggestionColor".spec_bytes()
            ||| key == "NuHintColor".spec_bytes()
            ||| key == "TTY".spec_bytes()
            ||| key == "User".spec_bytes()
            ||| key == "Log".spec_bytes()
            ||| key == "NewCmd".spec_bytes()
            ||| key == "OSCLock".spec_bytes()
            ||| key == "OSCUnlock".spec_bytes()
        }),
    ensures
        osc_actions(seq!["697".spec_bytes(), key + seq!['=' as u8] + value] + rest, bell) == Seq::<
            ActionView,
        >::empty(),
{
    lemma_words();
    lemma_key_and_value(key, value, rest, bell);
}

/// The exit code of a command and the number of a process are read from the decimal numeral
/// behind the `=`, with or without a sign, as far as an `i32` has room for them.
pub proof fn law_shell_numbers(n: nat, value: Seq<u8>, number: int, rest: Seq<Seq<u8>>, bell: bool)
    requires
        ({
            ||| value == decimal_numeral(n) && number == n
            ||| value == seq!['+' as u8] + decimal_numeral(n) && number == n
            ||| value == seq!['-' as u8] + decimal_numeral(n) && number == -n
        }),
    ensures
        osc_actions(
            seq!["697".spec_bytes(), "PID".spec_bytes() + seq!['=' as u8] + value] + rest,
            bell,
        ) == if i32::MIN <= number <= i32::MAX {
            seq![ActionView::Pid(number as i32)]
        } else {
            seq![]
        },
        osc_actions(
            seq!["697".spec_bytes(), "ExitCode".spec_bytes() + seq!['=' as u8] + value] + rest,
            bell,
        ) == if i32::MIN <= number <= i32::MAX {
            seq![ActionView::ExitCode(number as i32)]
        } else {
            seq![]
        },
{
    law_decimal_numeral_has_its_value(n);
    law_signed_number_round_trip(n);
    law_shell_values_are_signed_numbers(value, number, rest, bell);
}

/// The exit code of a command and the number of a process are the number that the value gives,
/// however it is written.
pub proof fn law_shell_values_are_signed_numbers(
    value: Seq<u8>,
    number: int,
    rest: Seq<Seq<u8>>,
    bell: bool,
)
    requires
        value.len() > 0,
        signed_number(value) == Some(number),
    ensures
        osc_actions(
            seq!["697".spec_bytes(), "PID".spec_bytes() + seq!['=' as u8] + value] + rest,
            bell,
        ) == if i32::MIN <= number <= i32::MAX {
            seq![ActionView::Pid(number as i32)]
        } else {
            seq![]
        },
        osc_actions(
            seq!["697".spec_bytes(), "ExitCode".spec_bytes() + seq!['=' as u8] + value] + rest,
            bell,
        ) == if i32::MIN <= number <= i32::MAX {
            seq![ActionView::ExitCode(number as i32)]
        } else {
            seq![]
        },
{
    lemma_words();
    lemma_key_and_value("PID".spec_bytes(), value, rest, bell);
    lemma_key_and_value("ExitCode".spec_bytes(), value, rest, bell);
}

/// A value that is no number is passed over where the key comes with a number.
pub proof fn law_values_that_are_no_number(value: Seq<u8>, rest: Seq<Seq<u8>>, bell: bool)
    requires
        value.len() > 0,
        signed_number(value) is None,
    ensures
        osc_actions(
            seq!["697".spec_bytes(), "PID".spec_bytes() + seq!['=' as u8] + value] + rest,
            bell,
        ) == Seq::<ActionView>::empty(),
        osc_actions(
            seq!["697".spec_bytes(), "ExitCode".spec_bytes() + seq!['=' as u8] + value] + rest,
            bell,
        ) == Seq::<ActionView>::empty(),
{
    lemma_words();
    lemma_key_and_value("PID".spec_bytes(), value, rest, bell);
    lemma_key_and_value("ExitCode".spec_bytes(), value, rest, bell);
}

/// A key without a value is passed on, and so is an unknown key.
pub proof fn law_unknown_keys_are_passed_on(
    key: Seq<u8>,
    value: Seq<u8>,
    rest: Seq<Seq<u8>>,
    bell: bool,
)
    requires
        !key.contains('=' as u8),
        value.len() == 0 || ({
            &&& key != "Dir".spec_bytes()
            &&& key != "ShellPath".spec_bytes()
            &&& key != "WSLDistro".spec_bytes()
            &&& key != "Shell".spec_bytes()
            &&& key != "FishSuggestionColor".spec_bytes()
            &&& key != "ZshAutosuggestionColor".spec_bytes()
            &&& key != "FigAutosuggestionColor".spec_bytes()
            &&& key != "NuHintColor".spec_bytes()
            &&& key != "TTY".spec_bytes()
            &&& key != "User".spec_bytes()
            &&& key != "Log".spec_bytes()
            &&& key != "NewCmd".spec_bytes()
            &&& key != "OSCLock".spec_bytes()
            &&& key != "OSCUnlock".spec_bytes()
            &&& key != "ExitCode".spec_bytes()
            &&& key != "PID".spec_bytes()
        }),
    ensures
        ({
            let fields = seq!["697".spec_bytes(), key + seq!['=' as u8] + value] + rest;
            osc_actions(fields, bell) == seq![ActionView::UnhandledOscDispatch(fields, bell)]
        }),
{
    lemma_key_and_value(key, value, rest, bell);
}

} // verus!
