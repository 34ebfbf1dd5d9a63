//! Laws of control sequences.
//!
//! In all of them the parameters may be followed by others and may have subparameters; a
//! sequence looks only at what its law names.

use vstd::prelude::*;

use crate::action::ActionView;
use crate::attr::Attr;
use crate::csi::csi_actions;
use crate::cursor::{CursorShape, CursorStyle};
use crate::index::{Column, Line};
use crate::mode::{ClearMode, LineClearMode, Mode, TabulationClearMode};
use crate::sgr::sgr_attrs;

verus! {

/// A sequence that counts something counts as far as its first parameter says, and to one where
/// that is missing or zero.
pub proof fn law_counting_sequences(shown: Option<char>, params: Seq<Seq<u16>>, n: u16)
    requires
        params.len() > 0 && params[0][0] != 0 ==> n == params[0][0],
        params.len() == 0 || params[0][0] == 0 ==> n == 1,
    ensures
        csi_actions(shown, params, seq![], false, '@') == seq![ActionView::InsertBlank(n as usize)],
        csi_actions(shown, params, seq![], false, 'A') == seq![ActionView::MoveUp(n as usize)],
        csi_actions(shown, params, seq![], false, 'B') == seq![ActionView::MoveDown(n as usize)],
        csi_actions(shown, params, seq![], false, 'e') == seq![ActionView::MoveDown(n as usize)],
        csi_actions(shown, params, seq![], false, 'C') == seq![
            ActionView::MoveForward(Column(n as usize)),
        ],
        csi_actions(shown, params, seq![], false, 'a') == seq![
            ActionView::MoveForward(Column(n as usize)),
        ],
        csi_actions(shown, params, seq![], false, 'D') == seq![
            ActionView::MoveBackward(Column(n as usize)),
        ],
        csi_actions(shown, params, seq![], false, 'E') == seq![
            ActionView::MoveDownAndCr(n as usize),
        ],
        csi_actions(shown, params, seq![], false, 'F') == seq![ActionView::MoveUpAndCr(n as usize)],
        csi_actions(shown, params, seq![], false, 'I') == seq![ActionView::MoveForwardTabs(n)],
        csi_actions(shown, params, seq![], false, 'Z') == seq![ActionView::MoveBackwardTabs(n)],
        csi_actions(shown, params, seq![], false, 'L') == seq![
            ActionView::InsertBlankLines(n as usize),
        ],
        csi_actions(shown, params, seq![], false, 'M') == seq![ActionView::DeleteLines(n as usize)],
        csi_actions(shown, params, seq![], false, 'P') == seq![ActionView::DeleteChars(n as usize)],
        csi_actions(shown, params, seq![], false, 'X') == seq![
            ActionView::EraseChars(Column(n as usize)),
        ],
        csi_actions(shown, params, seq![], false, 'S') == seq![ActionView::ScrollUp(n as usize)],
        csi_actions(shown, params, seq![], false, 'T') == seq![ActionView::ScrollDown(n as usize)],
{
}

/// A sequence that goes to a place takes the line and the column from its parameters, counts
/// them from one, and takes the first one where a parameter is missing or zero. The places of a
/// handler are counted from zero.
pub proof fn law_places_are_counted_from_one(
    shown: Option<char>,
    params: Seq<Seq<u16>>,
    y: u16,
    x: u16,
)
    requires
        params.len() > 0 && params[0][0] != 0 ==> y == params[0][0],
        params.len() == 0 || params[0][0] == 0 ==> y == 1,
        params.len() > 1 && params[1][0] != 0 ==> x == params[1][0],
        params.len() <= 1 || params[1][0] == 0 ==> x == 1,
    ensures
        csi_actions(shown, params, seq![], false, 'H') == seq![
            ActionView::Goto(Line((y - 1) as i32), Column((x - 1) as usize)),
        ],
        csi_actions(shown, params, seq![], false, 'f') == seq![
            ActionView::Goto(Line((y - 1) as i32), Column((x - 1) as usize)),
        ],
        csi_actions(shown, params, seq![], false, 'd') == seq![
            ActionView::GotoLine(Line((y - 1) as i32)),
        ],
        csi_actions(shown, params, seq![], false, 'G') == seq![
            ActionView::GotoCol(Column((y - 1) as usize)),
        ],
        csi_actions(shown, params, seq![], false, '`') == seq![
            ActionView::GotoCol(Column((y - 1) as usize)),
        ],
{
}

/// The scrolling region begins at the line that the first parameter gives, and at the first
/// line where that is missing or zero. It ends at the line that the second parameter gives, and
/// has no end exactly where that is missing or zero.
pub proof fn law_scrolling_region(
    shown: Option<char>,
    params: Seq<Seq<u16>>,
    top: u16,
    bottom: Option<usize>,
)
    requires
        params.len() > 0 && params[0][0] != 0 ==> top == params[0][0],
        params.len() == 0 || params[0][0] == 0 ==> top == 1,
        params.len() > 1 && params[1][0] != 0 ==> bottom == Some(params[1][0] as usize),
        params.len() <= 1 || params[1][0] == 0 ==> bottom is None,
    ensures
        csi_actions(shown, params, seq![], false, 'r') == seq![
            ActionView::SetScrollingRegion(top as usize, bottom),
        ],
{
}

/// A sequence that clears something clears the part that its first parameter selects. Where the
/// parameter is missing it selects what zero selects, and a number that selects nothing is passed
/// on.
pub proof fn law_clearing_sequences(shown: Option<char>, params: Seq<Seq<u16>>, n: u16)
    requires
        params.len() > 0 ==> n == params[0][0],
        params.len() == 0 ==> n == 0,
    ensures
        n == 0 ==> csi_actions(shown, params, seq![], false, 'J') == seq![
            ActionView::ClearScreen(ClearMode::Below),
        ],
        n == 1 ==> csi_actions(shown, params, seq![], false, 'J') == seq![
            ActionView::ClearScreen(ClearMode::Above),
        ],
        n == 2 ==> csi_actions(shown, params, seq![], false, 'J') == seq![
            ActionView::ClearScreen(ClearMode::All),
        ],
        n == 3 ==> csi_actions(shown, params, seq![], false, 'J') == seq![
            ActionView::ClearScreen(ClearMode::Saved),
        ],
        n > 3 ==> csi_actions(shown, params, seq![], false, 'J') == seq![
            ActionView::UnhandledCsiDispatch(params, seq![], false, 'J'),
        ],
        n == 0 ==> csi_actions(shown, params, seq![], false, 'K') == seq![
            ActionView::ClearLine(LineClearMode::Right),
        ],
        n == 1 ==> csi_actions(shown, params, seq![], false, 'K') == seq![
            ActionView::ClearLine(LineClearMode::Left),
        ],
        n == 2 ==> csi_actions(shown, params, seq![], false, 'K') == seq![
            ActionView::ClearLine(LineClearMode::All),
        ],
        n > 2 ==> csi_actions(shown, params, seq![], false, 'K') == seq![
            ActionView::UnhandledCsiDispatch(params, seq![], false, 'K'),
        ],
        n == 0 ==> csi_actions(shown, params, seq![], false, 'g') == seq![
            ActionView::ClearTabs(TabulationClearMode::Current),
        ],
        n == 3 ==> csi_actions(shown, params, seq![], false, 'g') == seq![
            ActionView::ClearTabs(TabulationClearMode::All),
        ],
        n != 0 && n != 3 ==> csi_actions(shown, params, seq![], false, 'g') == seq![
            ActionView::UnhandledCsiDispatch(params, seq![], false, 'g'),
        ],
{
}

/// The title is saved and brought back, and so is the place of the cursor. What else the
/// sequence for titles asks for is passed on.
pub proof fn law_saving_sequences(shown: Option<char>, params: Seq<Seq<u16>>)
    ensures
        csi_actions(shown, params, seq![], false, 's') == seq![ActionView::SaveCursorPosition],
        csi_actions(shown, params, seq![], false, 'u') == seq![ActionView::RestoreCursorPosition],
        params.len() > 0 && params[0][0] == 22 ==> csi_actions(shown, params, seq![], false, 't')
            == seq![ActionView::PushTitle],
        params.len() > 0 && params[0][0] == 23 ==> csi_actions(shown, params, seq![], false, 't')
            == seq![ActionView::PopTitle],
        params.len() == 0 || (params[0][0] != 22 && params[0][0] != 23) ==> csi_actions(
            shown,
            params,
            seq![],
            false,
            't',
        ) == seq![ActionView::UnhandledCsiDispatch(params, seq![], false, 't')],
{
}

/// The last character that was shown is shown again as often as the first parameter says, and
/// once where that is missing or zero. Before anything was shown nothing is repeated.
pub proof fn law_repetition(c: char, params: Seq<Seq<u16>>, n: u16)
    requires
        params.len() > 0 && params[0][0] != 0 ==> n == params[0][0],
        params.len() == 0 || params[0][0] == 0 ==> n == 1,
    ensures
        csi_actions(Some(c), params, seq![], false, 'b') == Seq::new(
            n as nat,
            |i: int| ActionView::Input(c),
        ),
        csi_actions(None, params, seq![], false, 'b') == Seq::<ActionView>::empty(),
{
}

/// The cursor styles from one to six are a block, an underline and a beam, of each first the
/// blinking one and then the steady one. Zero, or no number, is the terminal's own style, and
/// every other number is passed on.
pub proof fn law_cursor_styles(
    shown: Option<char>,
    params: Seq<Seq<u16>>,
    n: u16,
    style: CursorStyle,
)
    requires
        params.len() > 0 ==> n == params[0][0],
        params.len() == 0 ==> n == 0,
        style.blinking <==> n == 1 || n == 3 || n == 5,
        n == 1 || n == 2 ==> style.shape == CursorShape::Block,
        n == 3 || n == 4 ==> style.shape == CursorShape::Underline,
        n == 5 || n == 6 ==> style.shape == CursorShape::Beam,
    ensures
        n == 0 ==> csi_actions(shown, params, seq![' ' as u8], false, 'q') == seq![
            ActionView::SetCursorStyle(None),
        ],
        1 <= n <= 6 ==> csi_actions(shown, params, seq![' ' as u8], false, 'q') == seq![
            ActionView::SetCursorStyle(Some(style)),
        ],
        n > 6 ==> csi_actions(shown, params, seq![' ' as u8], false, 'q') == seq![
            ActionView::UnhandledCsiDispatch(params, seq![' ' as u8], false, 'q'),
        ],
{
}

/// Each parameter of a sequence with the marker `?` sets, or unsets, the mode that it names, and
/// is passed on if it names none.
pub proof fn law_private_modes(
    shown: Option<char>,
    params: Seq<Seq<u16>>,
    i: int,
    mode: Option<Mode>,
)
    requires
        0 <= i < params.len(),
        ({
            let num = params[i][0];
            &&& num == 1 ==> mode == Some(Mode::CursorKeys)
            &&& num == 3 ==> mode == Some(Mode::ColumnMode)
            &&& num == 6 ==> mode == Some(Mode::Origin)
            &&& num == 7 ==> mode == Some(Mode::LineWrap)
            &&& num == 12 ==> mode == Some(Mode::BlinkingCursor)
            &&& num == 25 ==> mode == Some(Mode::ShowCursor)
            &&& num == 1000 ==> mode == Some(Mode::ReportMouseClicks)
            &&& num == 1002 ==> mode == Some(Mode::ReportCellMouseMotion)
            &&& num == 1003 ==> mode == Some(Mode::ReportAllMouseMotion)
            &&& num == 1004 ==> mode == Some(Mode::ReportFocusInOut)
            &&& num == 1005 ==> mode == Some(Mode::Utf8Mouse)
            &&& num == 1006 ==> mode == Some(Mode::SgrMouse)
            &&& num == 1007 ==> mode == Some(Mode::AlternateScroll)
            &&& num == 1042 ==> mode == Some(Mode::UrgencyHints)
            &&& num == 1049 ==> mode == Some(Mode::SwapScreenAndSetRestoreCursor)
            &&& num == 2004 ==> mode == Some(Mode::BracketedPaste)
            &&& num != 1 && num != 3 && num != 6 && num != 7 && num != 12 && num != 25 && num
                != 1000 && num != 1002 && num != 1003 && num != 1004 && num != 1005 && num != 1006
                && num != 1007 && num != 1042 && num != 1049 && num != 2004 ==> mode is None
        }),
    ensures
        csi_actions(shown, params, seq!['?' as u8], false, 'h').len() == params.len(),
        csi_actions(shown, params, seq!['?' as u8], false, 'l').len() == params.len(),
        mode is Some ==> csi_actions(shown, params, seq!['?' as u8], false, 'h')[i]
            == ActionView::SetMode(mode->0),
        mode is Some ==> csi_actions(shown, params, seq!['?' as u8], false, 'l')[i]
            == ActionView::UnsetMode(mode->0),
        mode is None ==> csi_actions(shown, params, seq!['?' as u8], false, 'h')[i]
            == ActionView::UnhandledCsiDispatch(params, seq!['?' as u8], false, 'h'),
        mode is None ==> csi_actions(shown, params, seq!['?' as u8], false, 'l')[i]
            == ActionView::UnhandledCsiDispatch(params, seq!['?' as u8], false, 'l'),
{
}

/// Without a marker, 4 is the insert mode and 20 the mode that makes a line feed a new line;
/// every other number is passed on.
pub proof fn law_modes_without_a_marker(shown: Option<char>, params: Seq<Seq<u16>>, i: int)
    requires
        0 <= i < params.len(),
    ensures
        csi_actions(shown, params, seq![], false, 'h').len() == params.len(),
        csi_actions(shown, params, seq![], false, 'l').len() == params.len(),
        csi_actions(shown, params, seq![], false, 'h')[i] == if params[i][0] == 4 {
            ActionView::SetMode(Mode::Insert)
        } else if params[i][0] == 20 {
            ActionView::SetMode(Mode::LineFeedNewLine)
        } else {
            ActionView::UnhandledCsiDispatch(params, seq![], false, 'h')
        },
        csi_actions(shown, params, seq![], false, 'l')[i] == if params[i][0] == 4 {
            ActionView::UnsetMode(Mode::Insert)
        } else if params[i][0] == 20 {
            ActionView::UnsetMode(Mode::LineFeedNewLine)
        } else {
            ActionView::UnhandledCsiDispatch(params, seq![], false, 'l')
        },
{
}

/// No mode stands behind a marker other than `?`.
pub proof fn law_other_markers_name_no_mode(
    shown: Option<char>,
    params: Seq<Seq<u16>>,
    marker: u8,
    i: int,
)
    requires
        0 <= i < params.len(),
        marker != '?' as u8,
    ensures
        csi_actions(shown, params, seq![marker], false, 'h').len() == params.len(),
        csi_actions(shown, params, seq![marker], false, 'l').len() == params.len(),
        csi_actions(shown, params, seq![marker], false, 'h')[i]
            == ActionView::UnhandledCsiDispatch(params, seq![marker], false, 'h'),
        csi_actions(shown, params, seq![marker], false, 'l')[i]
            == ActionView::UnhandledCsiDispatch(params, seq![marker], false, 'l'),
{
}

/// A sequence for text attributes sets each attribute that its parameters stand for, in their
/// order, and is passed on once for each that stands for none. Without parameters it takes all
/// attributes back.
pub proof fn law_attribute_sequences(shown: Option<char>, params: Seq<Seq<u16>>, i: int)
    ensures
        params.len() == 0 ==> csi_actions(shown, params, seq![], false, 'm') == seq![
            ActionView::TerminalAttribute(Attr::Reset),
        ],
        params.len() > 0 ==> csi_actions(shown, params, seq![], false, 'm').len() == sgr_attrs(
            params,
        ).len(),
        params.len() > 0 && 0 <= i < sgr_attrs(params).len() ==> csi_actions(
            shown,
            params,
            seq![],
            false,
            'm',
        )[i] == if sgr_attrs(params)[i] is Some {
            ActionView::TerminalAttribute(sgr_attrs(params)[i]->0)
        } else {
            ActionView::UnhandledCsiDispatch(params, seq![], false, 'm')
        },
{
}

/// A sequence that asks for nothing known is passed on once, as it is: one with intermediates
/// that were left out, one with more than one, one with one that it does not have, and one that
/// ends in an unknown character.
pub proof fn law_unknown_sequences_are_passed_on(
    shown: Option<char>,
    params: Seq<Seq<u16>>,
    intermediates: Seq<u8>,
    ignored: bool,
    action: char,
)
    requires
        ({
            ||| ignored
            ||| intermediates.len() > 1
            ||| intermediates.len() == 1 && action != 'h' && action != 'l' && !(action == 'q'
                && intermediates[0] == ' ' as u8)
            ||| intermediates.len() == 0 && !"@ABCDEFGHIJKLMPSTXZ`abdefghlmrstu"@.contains(action)
        }),
    ensures
        csi_actions(shown, params, intermediates, ignored, action) == seq![
            ActionView::UnhandledCsiDispatch(params, intermediates, ignored, action),
        ],
{
    let known = "@ABCDEFGHIJKLMPSTXZ`abdefghlmrstu";
    reveal_strlit("@ABCDEFGHIJKLMPSTXZ`abdefghlmrstu");
    assert(known@[0] == '@' && known@[1] == 'A' && known@[2] == 'B' && known@[3] == 'C');
    assert(known@[4] == 'D' && known@[5] == 'E' && known@[6] == 'F' && known@[7] == 'G');
    assert(known@[8] == 'H' && known@[9] == 'I' && known@[10] == 'J' && known@[11] == 'K');
    assert(known@[12] == 'L' && known@[13] == 'M' && known@[14] == 'P' && known@[15] == 'S');
    assert(known@[16] == 'T' && known@[17] == 'X' && known@[18] == 'Z' && known@[19] == '`');
    assert(known@[20] == 'a' && known@[21] == 'b' && known@[22] == 'd' && known@[23] == 'e');
    assert(known@[24] == 'f' && known@[25] == 'g' && known@[26] == 'h' && known@[27] == 'l');
    assert(known@[28] == 'm' && known@[29] == 'r' && known@[30] == 's' && known@[31] == 't');
    assert(known@[32] == 'u');
}

} // verus!
