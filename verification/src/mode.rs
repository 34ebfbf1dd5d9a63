//! Modes that a program switches on and off, and what a clearing command clears.

use vstd::prelude::*;

verus! {

/// Terminal modes.
#[derive(Debug, Eq, PartialEq, Copy, Clone, Structural)]
pub enum Mode {
    /// ?1
    CursorKeys,
    /// Select 80 or 132 columns per page (DECCOLM), ?3.
    ///
    /// CSI ? 3 h -> set 132 column font.
    /// CSI ? 3 l -> reset 80 column font.
    ///
    /// Additionally,
    ///
    /// * set margins to default positions
    /// * erases all data in page memory
    /// * resets DECLRMM to unavailable
    /// * clears data from the status line (if set to host-writable)
    ColumnMode,
    /// IRM Insert Mode, 4.
    ///
    /// NB should be part of non-private mode enum.
    ///
    /// * `CSI 4 h` change to insert mode
    /// * `CSI 4 l` reset to replacement mode
    Insert,
    /// ?6
    Origin,
    /// ?7
    LineWrap,
    /// ?12
    BlinkingCursor,
    /// 20
    ///
    /// NB This is actually a private mode. We should consider adding a second
    /// enumeration for public/private modesets.
    LineFeedNewLine,
    /// ?25
    ShowCursor,
    /// ?1000
    ReportMouseClicks,
    /// ?1002
    ReportCellMouseMotion,
    /// ?1003
    ReportAllMouseMotion,
    /// ?1004
    ReportFocusInOut,
    /// ?1005
    Utf8Mouse,
    /// ?1006
    SgrMouse,
    /// ?1007
    AlternateScroll,
    /// ?1042
    UrgencyHints,
    /// ?1049
    SwapScreenAndSetRestoreCursor,
    /// ?2004
    BracketedPaste,
}

impl Mode {
    /// The number by which a control sequence names the mode.
    pub open spec fn code(self) -> u16 {
        match self {
            Mode::CursorKeys => 1,
            Mode::ColumnMode => 3,
            Mode::Insert => 4,
            Mode::Origin => 6,
            Mode::LineWrap => 7,
            Mode::BlinkingCursor => 12,
            Mode::LineFeedNewLine => 20,
            Mode::ShowCursor => 25,
            Mode::ReportMouseClicks => 1000,
            Mode::ReportCellMouseMotion => 1002,
            Mode::ReportAllMouseMotion => 1003,
            Mode::ReportFocusInOut => 1004,
            Mode::Utf8Mouse => 1005,
            Mode::SgrMouse => 1006,
            Mode::AlternateScroll => 1007,
            Mode::UrgencyHints => 1042,
            Mode::SwapScreenAndSetRestoreCursor => 1049,
            Mode::BracketedPaste => 2004,
        }
    }

    /// Whether a control sequence needs the marker `?` to name the mode.
    pub open spec fn is_private(self) -> bool {
        self != Mode::Insert && self != Mode::LineFeedNewLine
    }

    /// Whether `num`, behind the marker `intermediate` if there is one, names the mode.
    pub open spec fn named_by(self, intermediate: Option<&u8>, num: u16) -> bool {
        &&& self.code() == num
        &&& match intermediate {
            Some(marker) => self.is_private() && *marker == '?' as u8,
            None => !self.is_private(),
        }
    }

    /// The mode that `num`, behind the marker `intermediate` if there is one, names.
    pub open spec fn named(intermediate: Option<&u8>, num: u16) -> Option<Mode> {
        if Mode::CursorKeys.named_by(intermediate, num) {
            Some(Mode::CursorKeys)
        } else if Mode::ColumnMode.named_by(intermediate, num) {
            Some(Mode::ColumnMode)
        } else if Mode::Insert.named_by(intermediate, num) {
            Some(Mode::Insert)
        } else if Mode::Origin.named_by(intermediate, num) {
            Some(Mode::Origin)
        } else if Mode::LineWrap.named_by(intermediate, num) {
            Some(Mode::LineWrap)
        } else if Mode::BlinkingCursor.named_by(intermediate, num) {
            Some(Mode::BlinkingCursor)
        } else if Mode::LineFeedNewLine.named_by(intermediate, num) {
            Some(Mode::LineFeedNewLine)
        } else if Mode::ShowCursor.named_by(intermediate, num) {
            Some(Mode::ShowCursor)
        } else if Mode::ReportMouseClicks.named_by(intermediate, num) {
            Some(Mode::ReportMouseClicks)
        } else if Mode::ReportCellMouseMotion.named_by(intermediate, num) {
            Some(Mode::ReportCellMouseMotion)
        } else if Mode::ReportAllMouseMotion.named_by(intermediate, num) {
            Some(Mode::ReportAllMouseMotion)
        } else if Mode::ReportFocusInOut.named_by(intermediate, num) {
            Some(Mode::ReportFocusInOut)
        } else if Mode::Utf8Mouse.named_by(intermediate, num) {
            Some(Mode::Utf8Mouse)
        } else if Mode::SgrMouse.named_by(intermediate, num) {
            Some(Mode::SgrMouse)
        } else if Mode::AlternateScroll.named_by(intermediate, num) {
            Some(Mode::AlternateScroll)
        } else if Mode::UrgencyHints.named_by(intermediate, num) {
            Some(Mode::UrgencyHints)
        } else if Mode::SwapScreenAndSetRestoreCursor.named_by(intermediate, num) {
            Some(Mode::SwapScreenAndSetRestoreCursor)
        } else if Mode::BracketedPaste.named_by(intermediate, num) {
            Some(Mode::BracketedPaste)
        } else {
            None
        }
    }

    /// The number by which a control sequence names the mode.
    pub fn number(self) -> (num: u16)
        ensures
            num == self.code(),
    {
        match self {
            Mode::CursorKeys => 1,
            Mode::ColumnMode => 3,
            Mode::Insert => 4,
            Mode::Origin => 6,
            Mode::LineWrap => 7,
            Mode::BlinkingCursor => 12,
            Mode::LineFeedNewLine => 20,
            Mode::ShowCursor => 25,
            Mode::ReportMouseClicks => 1000,
            Mode::ReportCellMouseMotion => 1002,
            Mode::ReportAllMouseMotion => 1003,
            Mode::ReportFocusInOut => 1004,
            Mode::Utf8Mouse => 1005,
            Mode::SgrMouse => 1006,
            Mode::AlternateScroll => 1007,
            Mode::UrgencyHints => 1042,
            Mode::SwapScreenAndSetRestoreCursor => 1049,
            Mode::BracketedPaste => 2004,
        }
    }

    /// Create mode from a primitive.
    pub fn from_primitive(intermediate: Option<&u8>, num: u16) -> (mode: Option<Mode>)
        ensures
            mode == Mode::named(intermediate, num),
            mode matches Some(m) ==> m.named_by(intermediate, num),
            mode is None ==> forall|m: Mode| !m.named_by(intermediate, num),
    {
        let private = match intermediate {
            Some(marker) => if *marker == '?' as u8 {
                true
            } else {
                return None;
            },
            None => false,
        };

        let mode = if private {
            match num {
                1 => Some(Mode::CursorKeys),
                3 => Some(Mode::ColumnMode),
                6 => Some(Mode::Origin),
                7 => Some(Mode::LineWrap),
                12 => Some(Mode::BlinkingCursor),
                25 => Some(Mode::ShowCursor),
                1000 => Some(Mode::ReportMouseClicks),
                1002 => Some(Mode::ReportCellMouseMotion),
                1003 => Some(Mode::ReportAllMouseMotion),
                1004 => Some(Mode::ReportFocusInOut),
                1005 => Some(Mode::Utf8Mouse),
                1006 => Some(Mode::SgrMouse),
                1007 => Some(Mode::AlternateScroll),
                1042 => Some(Mode::UrgencyHints),
                1049 => Some(Mode::SwapScreenAndSetRestoreCursor),
                2004 => Some(Mode::BracketedPaste),
                _ => None,
            }
        } else {
            match num {
                4 => Some(Mode::Insert),
                20 => Some(Mode::LineFeedNewLine),
                _ => None,
            }
        };
        mode
    }
}

/// No two modes share a name: a number, behind a marker or not, names one mode at most.
pub proof fn law_mode_name_is_unique(a: Mode, b: Mode, intermediate: Option<&u8>, num: u16)
    requires
        a.named_by(intermediate, num),
        b.named_by(intermediate, num),
    ensures
        a == b,
{
}

/// Every mode is found again under its own name: its number, behind `?` if it is private.
pub proof fn law_mode_name_round_trip(mode: Mode, marker: &u8)
    requires
        *marker == '?' as u8,
    ensures
        Mode::named(if mode.is_private() { Some(marker) } else { None }, mode.code()) == Some(mode),
{
}

/// Mode for clearing line.
///
/// Relative to cursor.
#[derive(Debug, Eq, PartialEq, Copy, Clone, Structural)]
pub enum LineClearMode {
    /// Clear right of cursor.
    Right,
    /// Clear left of cursor.
    Left,
    /// Clear entire line.
    All,
}

/// Mode for clearing terminal.
///
/// Relative to cursor.
#[derive(Debug, Eq, PartialEq, Copy, Clone, Structural)]
pub enum ClearMode {
    /// Clear below cursor.
    Below,
    /// Clear above cursor.
    Above,
    /// Clear entire terminal.
    All,
    /// Clear 'saved' lines (scrollback).
    Saved,
}

/// Mode for clearing tab stops.
#[derive(Debug, Eq, PartialEq, Copy, Clone, Structural)]
pub enum TabulationClearMode {
    /// Clear stop under cursor.
    Current,
    /// Clear all stops.
    All,
}

} // verus!
