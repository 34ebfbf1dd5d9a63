//! Escape sequences that are no control sequences.

use vstd::prelude::*;

use crate::action::{action_views, single, Action, ActionView};
use crate::bytes::to_bytes;
use crate::charset::{CharsetIndex, StandardCharset};

verus! {

/// The slot that an intermediate assigns a character set to.
pub open spec fn charset_slot(intermediates: Seq<u8>) -> Option<CharsetIndex> {
    if intermediates == seq!['(' as u8] {
        Some(CharsetIndex::G0)
    } else if intermediates == seq![')' as u8] {
        Some(CharsetIndex::G1)
    } else if intermediates == seq!['*' as u8] {
        Some(CharsetIndex::G2)
    } else if intermediates == seq!['+' as u8] {
        Some(CharsetIndex::G3)
    } else {
        None
    }
}

/// The actions that an escape sequence asks for.
pub open spec fn esc_actions(intermediates: Seq<u8>, ignore: bool, byte: u8) -> Seq<ActionView> {
    let unhandled = ActionView::UnhandledEscDispatch(intermediates, ignore, byte);
    let final_char = byte as char;
    if final_char == 'B' || final_char == '0' {
        let charset = if final_char == 'B' {
            StandardCharset::Ascii
        } else {
            StandardCharset::SpecialCharacterAndLineDrawing
        };
        match charset_slot(intermediates) {
            Some(index) => seq![ActionView::ConfigureCharset(index, charset)],
            None => seq![unhandled],
        }
    } else if intermediates.len() == 0 {
        match final_char {
            'D' => seq![ActionView::Linefeed],
            'E' => seq![ActionView::Linefeed, ActionView::CarriageReturn],
            'H' => seq![ActionView::SetHorizontalTabstop],
            'M' => seq![ActionView::ReverseIndex],
            'c' => seq![ActionView::ResetState],
            '7' => seq![ActionView::SaveCursorPosition],
            '8' => seq![ActionView::RestoreCursorPosition],
            '=' => seq![ActionView::SetKeypadApplicationMode],
            '>' => seq![ActionView::UnsetKeypadApplicationMode],
            // The string terminator; the parser has taken it as such already.
            '\\' => seq![],
            _ => seq![unhandled],
        }
    } else if intermediates == seq!['#' as u8] && final_char == '8' {
        seq![ActionView::Decaln]
    } else {
        seq![unhandled]
    }
}

/// The slot that an intermediate assigns a character set to.
fn slot_of(intermediates: &[u8]) -> (slot: Option<CharsetIndex>)
    ensures
        slot == charset_slot(intermediates@),
{
    if intermediates.len() != 1 {
        return None;
    }
    assert(intermediates@ =~= seq![intermediates@[0]]);
    proof {
        assert(seq!['(' as u8][0] == '(' as u8 && seq![')' as u8][0] == ')' as u8);
        assert(seq!['*' as u8][0] == '*' as u8 && seq!['+' as u8][0] == '+' as u8);
    }
    match intermediates[0] as char {
        '(' => Some(CharsetIndex::G0),
        ')' => Some(CharsetIndex::G1),
        '*' => Some(CharsetIndex::G2),
        '+' => Some(CharsetIndex::G3),
        _ => None,
    }
}

/// The actions that an escape sequence asks for.
pub fn esc_dispatch(intermediates: &[u8], ignore: bool, byte: u8) -> (actions: Vec<Action>)
    ensures
        action_views(actions@) == esc_actions(intermediates@, ignore, byte),
{
    let final_char: char = byte as char;
    if final_char == 'B' || final_char == '0' {
        let charset = if final_char == 'B' {
            StandardCharset::Ascii
        } else {
            StandardCharset::SpecialCharacterAndLineDrawing
        };
        match slot_of(intermediates) {
            Some(index) => single(Action::ConfigureCharset(index, charset)),
            None => single(Action::UnhandledEscDispatch(to_bytes(intermediates), ignore, byte)),
        }
    } else if intermediates.len() == 0 {
        match final_char {
            'D' => single(Action::Linefeed),
            'E' => {
                let mut actions: Vec<Action> = Vec::new();
                actions.push(Action::Linefeed);
                actions.push(Action::CarriageReturn);
                assert(action_views(actions@) =~= seq![
                    ActionView::Linefeed,
                    ActionView::CarriageReturn,
                ]);
                actions
            },
            'H' => single(Action::SetHorizontalTabstop),
            'M' => single(Action::ReverseIndex),
            'c' => single(Action::ResetState),
            '7' => single(Action::SaveCursorPosition),
            '8' => single(Action::RestoreCursorPosition),
            '=' => single(Action::SetKeypadApplicationMode),
            '>' => single(Action::UnsetKeypadApplicationMode),
            '\\' => Vec::new(),
            _ => single(Action::UnhandledEscDispatch(to_bytes(intermediates), ignore, byte)),
        }
    } else if intermediates.len() == 1 && intermediates[0] == '#' as u8 && final_char == '8' {
        assert(intermediates@ =~= seq!['#' as u8]);
        single(Action::Decaln)
    } else {
        assert(seq!['#' as u8][0] == '#' as u8);
        single(Action::UnhandledEscDispatch(to_bytes(intermediates), ignore, byte))
    }
}

} // verus!
