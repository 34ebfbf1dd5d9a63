//! Laws of control characters, escape sequences and character sets.

use vstd::prelude::*;

use crate::action::ActionView;
use crate::charset::{CharsetIndex, StandardCharset};
use crate::control::control_action;
use crate::esc::esc_actions;

verus! {

/// What each control character asks for. Every other byte is passed on.
pub proof fn law_control_characters(byte: u8)
    ensures
        byte == 0x07 ==> control_action(byte) == ActionView::Bell,
        byte == 0x08 ==> control_action(byte) == ActionView::Backspace,
        byte == 0x09 ==> control_action(byte) == ActionView::PutTab(1),
        byte == 0x0a || byte == 0x0b || byte == 0x0c ==> control_action(byte)
            == ActionView::Linefeed,
        byte == 0x0d ==> control_action(byte) == ActionView::CarriageReturn,
        byte == 0x0e ==> control_action(byte) == ActionView::SetActiveCharset(CharsetIndex::G1),
        byte == 0x0f ==> control_action(byte) == ActionView::SetActiveCharset(CharsetIndex::G0),
        byte == 0x1a ==> control_action(byte) == ActionView::Substitute,
        byte < 0x07 || 0x0f < byte < 0x1a || 0x1a < byte ==> control_action(byte)
            == ActionView::UnhandledExecute(byte),
{
}

/// What an escape sequence without intermediates asks for.
pub proof fn law_plain_escape_sequences(ignore: bool)
    ensures
        esc_actions(seq![], ignore, 'D' as u8) == seq![ActionView::Linefeed],
        esc_actions(seq![], ignore, 'E' as u8) == seq![ActionView::Linefeed, ActionView::CarriageReturn],
        esc_actions(seq![], ignore, 'H' as u8) == seq![ActionView::SetHorizontalTabstop],
        esc_actions(seq![], ignore, 'M' as u8) == seq![ActionView::ReverseIndex],
        esc_actions(seq![], ignore, 'c' as u8) == seq![ActionView::ResetState],
        esc_actions(seq![], ignore, '7' as u8) == seq![ActionView::SaveCursorPosition],
        esc_actions(seq![], ignore, '8' as u8) == seq![ActionView::RestoreCursorPosition],
        esc_actions(seq![], ignore, '=' as u8) == seq![ActionView::SetKeypadApplicationMode],
        esc_actions(seq![], ignore, '>' as u8) == seq![ActionView::UnsetKeypadApplicationMode],
        esc_actions(seq![], ignore, '\\' as u8) == Seq::<ActionView>::empty(),
{
}

/// A character set is assigned to the slot that the intermediate names: `B` is the ASCII set,
/// `0` the line drawing set.
pub proof fn law_charsets_are_assigned_to_slots(ignore: bool, charset: StandardCharset, byte: u8)
    requires
        byte == 'B' as u8 ==> charset == StandardCharset::Ascii,
        byte == '0' as u8 ==> charset == StandardCharset::SpecialCharacterAndLineDrawing,
        byte == 'B' as u8 || byte == '0' as u8,
    ensures
        esc_actions(seq!['(' as u8], ignore, byte) == seq![
            ActionView::ConfigureCharset(CharsetIndex::G0, charset),
        ],
        esc_actions(seq![')' as u8], ignore, byte) == seq![
            ActionView::ConfigureCharset(CharsetIndex::G1, charset),
        ],
        esc_actions(seq!['*' as u8], ignore, byte) == seq![
            ActionView::ConfigureCharset(CharsetIndex::G2, charset),
        ],
        esc_actions(seq!['+' as u8], ignore, byte) == seq![
            ActionView::ConfigureCharset(CharsetIndex::G3, charset),
        ],
        esc_actions(seq!['#' as u8], ignore, '8' as u8) == seq![ActionView::Decaln],
{
    assert(seq!['(' as u8][0] == '(' as u8 && seq![')' as u8][0] == ')' as u8);
    assert(seq!['*' as u8][0] == '*' as u8 && seq!['+' as u8][0] == '+' as u8);
}

/// An escape sequence that asks for nothing known is passed on once, as it is.
pub proof fn law_unknown_escape_sequences_are_passed_on(
    intermediates: Seq<u8>,
    ignore: bool,
    byte: u8,
)
    requires
        intermediates.len() == 0 ==> byte != 'D' as u8 && byte != 'E' as u8 && byte != 'H' as u8
            && byte != 'M' as u8 && byte != 'c' as u8 && byte != '7' as u8 && byte != '8' as u8
            && byte != '=' as u8 && byte != '>' as u8 && byte != '\\' as u8,
        intermediates.len() == 1 && (byte == 'B' as u8 || byte == '0' as u8) ==> intermediates[0]
            != '(' as u8 && intermediates[0] != ')' as u8 && intermediates[0] != '*' as u8
            && intermediates[0] != '+' as u8,
        intermediates.len() == 1 && byte == '8' as u8 ==> intermediates[0] != '#' as u8,
    ensures
        esc_actions(intermediates, ignore, byte) == seq![
            ActionView::UnhandledEscDispatch(intermediates, ignore, byte),
        ],
{
    assert(seq!['(' as u8][0] == '(' as u8 && seq![')' as u8][0] == ')' as u8);
    assert(seq!['*' as u8][0] == '*' as u8 && seq!['+' as u8][0] == '+' as u8);
    assert(seq!['#' as u8][0] == '#' as u8);
}

/// The glyphs of the line drawing set.
pub proof fn law_line_drawing_glyphs()
    ensures
        StandardCharset::SpecialCharacterAndLineDrawing.glyph('`') == '◆',
        StandardCharset::SpecialCharacterAndLineDrawing.glyph('a') == '▒',
        StandardCharset::SpecialCharacterAndLineDrawing.glyph('b') == '\t',
        StandardCharset::SpecialCharacterAndLineDrawing.glyph('c') == '\u{c}',
        StandardCharset::SpecialCharacterAndLineDrawing.glyph('d') == '\r',
        StandardCharset::SpecialCharacterAndLineDrawing.glyph('e') == '\n',
        StandardCharset::SpecialCharacterAndLineDrawing.glyph('f') == '°',
        StandardCharset::SpecialCharacterAndLineDrawing.glyph('g') == '±',
        StandardCharset::SpecialCharacterAndLineDrawing.glyph('h') == '\u{2424}',
        StandardCharset::SpecialCharacterAndLineDrawing.glyph('i') == '\u{b}',
        StandardCharset::SpecialCharacterAndLineDrawing.glyph('j') == '┘',
        StandardCharset::SpecialCharacterAndLineDrawing.glyph('k') == '┐',
        StandardCharset::SpecialCharacterAndLineDrawing.glyph('l') == '┌',
        StandardCharset::SpecialCharacterAndLineDrawing.glyph('m') == '└',
        StandardCharset::SpecialCharacterAndLineDrawing.glyph('n') == '┼',
        StandardCharset::SpecialCharacterAndLineDrawing.glyph('o') == '⎺',
        StandardCharset::SpecialCharacterAndLineDrawing.glyph('p') == '⎻',
        StandardCharset::SpecialCharacterAndLineDrawing.glyph('q') == '─',
        StandardCharset::SpecialCharacterAndLineDrawing.glyph('r') == '⎼',
        StandardCharset::SpecialCharacterAndLineDrawing.glyph('s') == '⎽',
        StandardCharset::SpecialCharacterAndLineDrawing.glyph('t') == '├',
        StandardCharset::SpecialCharacterAndLineDrawing.glyph('u') == '┤',
        StandardCharset::SpecialCharacterAndLineDrawing.glyph('v') == '┴',
        StandardCharset::SpecialCharacterAndLineDrawing.glyph('w') == '┬',
        StandardCharset::SpecialCharacterAndLineDrawing.glyph('x') == '│',
        StandardCharset::SpecialCharacterAndLineDrawing.glyph('y') == '≤',
        StandardCharset::SpecialCharacterAndLineDrawing.glyph('z') == '≥',
        StandardCharset::SpecialCharacterAndLineDrawing.glyph('{') == 'π',
        StandardCharset::SpecialCharacterAndLineDrawing.glyph('|') == '≠',
        StandardCharset::SpecialCharacterAndLineDrawing.glyph('}') == '£',
        StandardCharset::SpecialCharacterAndLineDrawing.glyph('~') == '·',
{
}

} // verus!
