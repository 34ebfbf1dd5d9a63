//! Control characters, escape sequences, control sequences and commands, and the actions that
//! they ask for.

use ansi_terminal::action::Action;
use ansi_terminal::attr::Attr;
use ansi_terminal::charset::{CharsetIndex, StandardCharset};
use ansi_terminal::color::{Color, NamedColor, Rgb};
use ansi_terminal::control::execute;
use ansi_terminal::csi::csi_dispatch;
use ansi_terminal::cursor::{CursorShape, CursorStyle};
use ansi_terminal::esc::esc_dispatch;
use ansi_terminal::index::{Column, Line};
use ansi_terminal::mode::{ClearMode, LineClearMode, Mode, TabulationClearMode};
use ansi_terminal::osc::osc_dispatch;
use ansi_terminal::params::ParamList;
use ansi_terminal::sgr::{attrs_from_sgr_parameters, parse_sgr_color};
use ansi_terminal::C0;

fn groups(values: &[&[u16]]) -> ParamList {
    match ParamList::new(values.iter().map(|group| group.to_vec()).collect()) {
        Some(params) => params,
        None => panic!("a parameter without a value"),
    }
}

fn params(values: &[u16]) -> ParamList {
    match ParamList::new(values.iter().map(|value| vec![*value]).collect()) {
        Some(params) => params,
        None => panic!("a parameter without a value"),
    }
}

fn csi(values: &[u16], action: char) -> Vec<Action> {
    csi_dispatch(None, &params(values), &[], false, action)
}

fn csi_unhandled(values: &[u16], intermediates: &[u8], action: char) -> Vec<Action> {
    vec![Action::UnhandledCsiDispatch(params(values), intermediates.to_vec(), false, action)]
}

fn osc(fields: &[&[u8]]) -> Vec<Action> {
    osc_dispatch(fields, true)
}

fn osc_unhandled(fields: &[&[u8]]) -> Action {
    Action::UnhandledOscDispatch(fields.iter().map(|field| field.to_vec()).collect(), true)
}

#[test]
fn parameters_are_never_empty() {
    assert_eq!(ParamList::new(vec![vec![1], vec![]]), None);
    let list = groups(&[&[4, 2], &[7]]);
    assert_eq!(list.count(), 2);
    assert_eq!(list.is_empty(), false);
    assert_eq!(list.group(0), &[4, 2]);
    assert_eq!(list.value(1), 7);
    assert_eq!(params(&[]).is_empty(), true);
    assert_eq!(list.clone(), list);
}

#[test]
fn control_characters() {
    assert_eq!(execute(C0::HT), vec![Action::PutTab(1)]);
    assert_eq!(execute(C0::BS), vec![Action::Backspace]);
    assert_eq!(execute(C0::CR), vec![Action::CarriageReturn]);
    assert_eq!(execute(C0::LF), vec![Action::Linefeed]);
    assert_eq!(execute(C0::VT), vec![Action::Linefeed]);
    assert_eq!(execute(C0::FF), vec![Action::Linefeed]);
    assert_eq!(execute(C0::BEL), vec![Action::Bell]);
    assert_eq!(execute(C0::SUB), vec![Action::Substitute]);
    assert_eq!(execute(C0::SI), vec![Action::SetActiveCharset(CharsetIndex::G0)]);
    assert_eq!(execute(C0::SO), vec![Action::SetActiveCharset(CharsetIndex::G1)]);
    assert_eq!(execute(C0::NUL), vec![Action::UnhandledExecute(0)]);
    assert_eq!(execute(C0::DEL), vec![Action::UnhandledExecute(0x7f)]);
    assert_eq!(execute(0x85), vec![Action::UnhandledExecute(0x85)]);
}

#[test]
fn escape_sequences() {
    assert_eq!(esc_dispatch(&[], false, b'D'), vec![Action::Linefeed]);
    assert_eq!(esc_dispatch(&[], false, b'E'), vec![Action::Linefeed, Action::CarriageReturn]);
    assert_eq!(esc_dispatch(&[], false, b'H'), vec![Action::SetHorizontalTabstop]);
    assert_eq!(esc_dispatch(&[], false, b'M'), vec![Action::ReverseIndex]);
    assert_eq!(esc_dispatch(&[], false, b'c'), vec![Action::ResetState]);
    assert_eq!(esc_dispatch(&[], false, b'7'), vec![Action::SaveCursorPosition]);
    assert_eq!(esc_dispatch(&[], false, b'8'), vec![Action::RestoreCursorPosition]);
    assert_eq!(esc_dispatch(&[b'#'], false, b'8'), vec![Action::Decaln]);
    assert_eq!(esc_dispatch(&[], false, b'='), vec![Action::SetKeypadApplicationMode]);
    assert_eq!(esc_dispatch(&[], false, b'>'), vec![Action::UnsetKeypadApplicationMode]);
    assert_eq!(esc_dispatch(&[], false, b'\\'), vec![]);
}

#[test]
fn escape_sequences_that_configure_charsets() {
    let drawing = StandardCharset::SpecialCharacterAndLineDrawing;
    assert_eq!(
        esc_dispatch(b"(", false, b'B'),
        vec![Action::ConfigureCharset(CharsetIndex::G0, StandardCharset::Ascii)]
    );
    assert_eq!(
        esc_dispatch(b")", false, b'0'),
        vec![Action::ConfigureCharset(CharsetIndex::G1, drawing)]
    );
    assert_eq!(
        esc_dispatch(b"*", false, b'0'),
        vec![Action::ConfigureCharset(CharsetIndex::G2, drawing)]
    );
    assert_eq!(
        esc_dispatch(b"+", false, b'B'),
        vec![Action::ConfigureCharset(CharsetIndex::G3, StandardCharset::Ascii)]
    );
}

#[test]
fn escape_sequences_that_nothing_handles() {
    assert_eq!(
        esc_dispatch(&[], false, b'B'),
        vec![Action::UnhandledEscDispatch(vec![], false, b'B')]
    );
    assert_eq!(
        esc_dispatch(b"((", true, b'0'),
        vec![Action::UnhandledEscDispatch(b"((".to_vec(), true, b'0')]
    );
    assert_eq!(
        esc_dispatch(b"#", false, b'7'),
        vec![Action::UnhandledEscDispatch(b"#".to_vec(), false, b'7')]
    );
    assert_eq!(
        esc_dispatch(b"(", false, b'D'),
        vec![Action::UnhandledEscDispatch(b"(".to_vec(), false, b'D')]
    );
    assert_eq!(
        esc_dispatch(&[], false, 0xff),
        vec![Action::UnhandledEscDispatch(vec![], false, 0xff)]
    );
}

#[test]
fn control_sequences_that_move_the_cursor() {
    assert_eq!(csi(&[], 'A'), vec![Action::MoveUp(1)]);
    assert_eq!(csi(&[5], 'A'), vec![Action::MoveUp(5)]);
    assert_eq!(csi(&[2], 'B'), vec![Action::MoveDown(2)]);
    assert_eq!(csi(&[2], 'e'), vec![Action::MoveDown(2)]);
    assert_eq!(csi(&[3], 'C'), vec![Action::MoveForward(Column(3))]);
    assert_eq!(csi(&[3], 'a'), vec![Action::MoveForward(Column(3))]);
    assert_eq!(csi(&[4], 'D'), vec![Action::MoveBackward(Column(4))]);
    assert_eq!(csi(&[6], 'd'), vec![Action::GotoLine(Line(5))]);
    assert_eq!(csi(&[7], 'E'), vec![Action::MoveDownAndCr(7)]);
    assert_eq!(csi(&[8], 'F'), vec![Action::MoveUpAndCr(8)]);
    assert_eq!(csi(&[9], 'G'), vec![Action::GotoCol(Column(8))]);
    assert_eq!(csi(&[9], '`'), vec![Action::GotoCol(Column(8))]);
    assert_eq!(csi(&[], 'H'), vec![Action::Goto(Line(0), Column(0))]);
    assert_eq!(csi(&[5, 10], 'H'), vec![Action::Goto(Line(4), Column(9))]);
    assert_eq!(csi(&[65535, 65535], 'f'), vec![Action::Goto(Line(65534), Column(65534))]);
    assert_eq!(csi(&[2], 'I'), vec![Action::MoveForwardTabs(2)]);
    assert_eq!(csi(&[2], 'Z'), vec![Action::MoveBackwardTabs(2)]);
    assert_eq!(csi(&[], 's'), vec![Action::SaveCursorPosition]);
    assert_eq!(csi(&[], 'u'), vec![Action::RestoreCursorPosition]);
}

#[test]
fn control_sequences_that_change_the_screen() {
    assert_eq!(csi(&[2], '@'), vec![Action::InsertBlank(2)]);
    assert_eq!(csi(&[2], 'L'), vec![Action::InsertBlankLines(2)]);
    assert_eq!(csi(&[2], 'M'), vec![Action::DeleteLines(2)]);
    assert_eq!(csi(&[2], 'P'), vec![Action::DeleteChars(2)]);
    assert_eq!(csi(&[2], 'S'), vec![Action::ScrollUp(2)]);
    assert_eq!(csi(&[2], 'T'), vec![Action::ScrollDown(2)]);
    assert_eq!(csi(&[2], 'X'), vec![Action::EraseChars(Column(2))]);
    assert_eq!(csi(&[], 'g'), vec![Action::ClearTabs(TabulationClearMode::Current)]);
    assert_eq!(csi(&[3], 'g'), vec![Action::ClearTabs(TabulationClearMode::All)]);
    assert_eq!(csi(&[1], 'g'), csi_unhandled(&[1], &[], 'g'));
    assert_eq!(csi(&[], 'J'), vec![Action::ClearScreen(ClearMode::Below)]);
    assert_eq!(csi(&[1], 'J'), vec![Action::ClearScreen(ClearMode::Above)]);
    assert_eq!(csi(&[2], 'J'), vec![Action::ClearScreen(ClearMode::All)]);
    assert_eq!(csi(&[3], 'J'), vec![Action::ClearScreen(ClearMode::Saved)]);
    assert_eq!(csi(&[4], 'J'), csi_unhandled(&[4], &[], 'J'));
    assert_eq!(csi(&[], 'K'), vec![Action::ClearLine(LineClearMode::Right)]);
    assert_eq!(csi(&[1], 'K'), vec![Action::ClearLine(LineClearMode::Left)]);
    assert_eq!(csi(&[2], 'K'), vec![Action::ClearLine(LineClearMode::All)]);
    assert_eq!(csi(&[3], 'K'), csi_unhandled(&[3], &[], 'K'));
    assert_eq!(csi(&[], 'r'), vec![Action::SetScrollingRegion(1, None)]);
    assert_eq!(csi(&[0, 0], 'r'), vec![Action::SetScrollingRegion(1, None)]);
    assert_eq!(csi(&[3, 20], 'r'), vec![Action::SetScrollingRegion(3, Some(20))]);
    assert_eq!(csi(&[22], 't'), vec![Action::PushTitle]);
    assert_eq!(csi(&[23], 't'), vec![Action::PopTitle]);
    assert_eq!(csi(&[], 't'), csi_unhandled(&[], &[], 't'));
}

#[test]
fn zero_counts_as_the_default() {
    for action in "@ABeCaDdEFG`HfILMPrSTtXZ".chars() {
        if action == 't' {
            assert_eq!(csi(&[0], action), csi_unhandled(&[0], &[], action));
        } else {
            assert_eq!(csi(&[0], action), csi(&[], action));
            assert_eq!(csi(&[0], action), csi(&[1], action));
        }
    }
}

#[test]
fn repetition_of_the_preceding_character() {
    assert_eq!(csi_dispatch(None, &params(&[3]), &[], false, 'b'), vec![]);
    assert_eq!(
        csi_dispatch(Some('x'), &params(&[3]), &[], false, 'b'),
        vec![Action::Input('x'), Action::Input('x'), Action::Input('x')]
    );
    assert_eq!(csi_dispatch(Some('y'), &params(&[]), &[], false, 'b'), vec![Action::Input('y')]);
    assert_eq!(csi_dispatch(Some('z'), &params(&[65535]), &[], false, 'b').len(), 65535);
}

#[test]
fn modes_are_set_and_unset() {
    assert_eq!(
        csi_dispatch(None, &params(&[1, 2, 2004]), b"?", false, 'h'),
        vec![
            Action::SetMode(Mode::CursorKeys),
            Action::UnhandledCsiDispatch(params(&[1, 2, 2004]), b"?".to_vec(), false, 'h'),
            Action::SetMode(Mode::BracketedPaste),
        ]
    );
    assert_eq!(
        csi_dispatch(None, &params(&[25]), b"?", false, 'l'),
        vec![Action::UnsetMode(Mode::ShowCursor)]
    );
    assert_eq!(csi(&[4], 'h'), vec![Action::SetMode(Mode::Insert)]);
    assert_eq!(csi(&[20], 'l'), vec![Action::UnsetMode(Mode::LineFeedNewLine)]);
    assert_eq!(csi(&[], 'h'), vec![]);
    assert_eq!(csi_dispatch(None, &params(&[4]), b">", false, 'h'), csi_unhandled(&[4], b">", 'h'));
}

#[test]
fn modes_have_their_numbers() {
    let question: u8 = b'?';
    let private = [
        (1, Mode::CursorKeys),
        (3, Mode::ColumnMode),
        (6, Mode::Origin),
        (7, Mode::LineWrap),
        (12, Mode::BlinkingCursor),
        (25, Mode::ShowCursor),
        (1000, Mode::ReportMouseClicks),
        (1002, Mode::ReportCellMouseMotion),
        (1003, Mode::ReportAllMouseMotion),
        (1004, Mode::ReportFocusInOut),
        (1005, Mode::Utf8Mouse),
        (1006, Mode::SgrMouse),
        (1007, Mode::AlternateScroll),
        (1042, Mode::UrgencyHints),
        (1049, Mode::SwapScreenAndSetRestoreCursor),
        (2004, Mode::BracketedPaste),
    ];
    for (num, mode) in private {
        assert_eq!(Mode::from_primitive(Some(&question), num), Some(mode));
        assert_eq!(Mode::from_primitive(None, num), None);
        assert_eq!(mode.number(), num);
    }
    for (num, mode) in [(4, Mode::Insert), (20, Mode::LineFeedNewLine)] {
        assert_eq!(Mode::from_primitive(None, num), Some(mode));
        assert_eq!(Mode::from_primitive(Some(&question), num), None);
        assert_eq!(mode.number(), num);
    }
    assert_eq!(Mode::from_primitive(Some(&b'!'), 1), None);
    assert_eq!(Mode::from_primitive(None, 2), None);
}

#[test]
fn cursor_styles() {
    let style = |id: u16| csi_dispatch(None, &params(&[id]), b" ", false, 'q');
    let set = |shape, blinking| vec![Action::SetCursorStyle(Some(CursorStyle { shape, blinking }))];
    assert_eq!(style(0), vec![Action::SetCursorStyle(None)]);
    assert_eq!(style(1), set(CursorShape::Block, true));
    assert_eq!(style(2), set(CursorShape::Block, false));
    assert_eq!(style(3), set(CursorShape::Underline, true));
    assert_eq!(style(4), set(CursorShape::Underline, false));
    assert_eq!(style(5), set(CursorShape::Beam, true));
    assert_eq!(style(6), set(CursorShape::Beam, false));
    assert_eq!(style(7), csi_unhandled(&[7], b" ", 'q'));
    assert_eq!(csi(&[1], 'q'), csi_unhandled(&[1], &[], 'q'));
}

#[test]
fn control_sequences_that_nothing_handles() {
    assert_eq!(csi(&[1], 'y'), csi_unhandled(&[1], &[], 'y'));
    assert_eq!(csi_dispatch(None, &params(&[1]), b"?", false, 'A'), csi_unhandled(&[1], b"?", 'A'));
    assert_eq!(
        csi_dispatch(None, &params(&[1]), b"? ", false, 'h'),
        csi_unhandled(&[1], b"? ", 'h')
    );
    assert_eq!(
        csi_dispatch(None, &params(&[1]), &[], true, 'A'),
        vec![Action::UnhandledCsiDispatch(params(&[1]), vec![], true, 'A')]
    );
}

#[test]
fn text_attributes() {
    let named = |color| Color::Named(color);
    let expected = [
        (0, Attr::Reset),
        (1, Attr::Bold),
        (2, Attr::Dim),
        (3, Attr::Italic),
        (4, Attr::Underline),
        (5, Attr::BlinkSlow),
        (6, Attr::BlinkFast),
        (7, Attr::Reverse),
        (8, Attr::Hidden),
        (9, Attr::Strike),
        (21, Attr::CancelBold),
        (22, Attr::CancelBoldDim),
        (23, Attr::CancelItalic),
        (24, Attr::CancelUnderline),
        (25, Attr::CancelBlink),
        (27, Attr::CancelReverse),
        (28, Attr::CancelHidden),
        (29, Attr::CancelStrike),
        (30, Attr::Foreground(named(NamedColor::Black))),
        (33, Attr::Foreground(named(NamedColor::Yellow))),
        (37, Attr::Foreground(named(NamedColor::White))),
        (39, Attr::Foreground(named(NamedColor::Foreground))),
        (40, Attr::Background(named(NamedColor::Black))),
        (47, Attr::Background(named(NamedColor::White))),
        (49, Attr::Background(named(NamedColor::Background))),
        (90, Attr::Foreground(named(NamedColor::BrightBlack))),
        (97, Attr::Foreground(named(NamedColor::BrightWhite))),
        (100, Attr::Background(named(NamedColor::BrightBlack))),
        (107, Attr::Background(named(NamedColor::BrightWhite))),
    ];
    for (code, attr) in expected {
        assert_eq!(attrs_from_sgr_parameters(&params(&[code])), vec![Some(attr)]);
        assert_eq!(csi(&[code], 'm'), vec![Action::TerminalAttribute(attr)]);
    }
    for code in [10, 20, 26, 50, 89, 98, 108] {
        assert_eq!(attrs_from_sgr_parameters(&params(&[code])), vec![None]);
        assert_eq!(csi(&[code], 'm'), csi_unhandled(&[code], &[], 'm'));
    }
    assert_eq!(csi(&[], 'm'), vec![Action::TerminalAttribute(Attr::Reset)]);
    assert_eq!(
        csi(&[1, 4], 'm'),
        vec![Action::TerminalAttribute(Attr::Bold), Action::TerminalAttribute(Attr::Underline)]
    );
}

#[test]
fn text_attributes_with_subparameters() {
    let attrs = |values: &[&[u16]]| attrs_from_sgr_parameters(&groups(values));
    assert_eq!(attrs(&[&[4, 0]]), vec![Some(Attr::CancelUnderline)]);
    assert_eq!(attrs(&[&[4, 2]]), vec![Some(Attr::DoubleUnderline)]);
    assert_eq!(attrs(&[&[4, 3]]), vec![Some(Attr::Underline)]);
    assert_eq!(attrs(&[&[4, 0, 0]]), vec![Some(Attr::Underline)]);
    assert_eq!(attrs(&[&[1, 0]]), vec![None]);
    let color = Color::Spec(Rgb { r: 1, g: 2, b: 3 });
    assert_eq!(attrs(&[&[38, 2, 1, 2, 3]]), vec![Some(Attr::Foreground(color))]);
    assert_eq!(attrs(&[&[48, 2, 0, 1, 2, 3]]), vec![Some(Attr::Background(color))]);
    assert_eq!(attrs(&[&[38, 5, 9], &[1]]), vec![
        Some(Attr::Foreground(Color::Indexed(9))),
        Some(Attr::Bold),
    ]);
    assert_eq!(attrs(&[&[38, 2, 1, 2]]), vec![None]);
    assert_eq!(attrs(&[&[38, 2, 256, 2, 3]]), vec![None]);
    assert_eq!(attrs(&[&[48, 9]]), vec![None]);
}

#[test]
fn colors_in_text_attributes_take_the_next_parameters() {
    let attrs = |values: &[u16]| attrs_from_sgr_parameters(&params(values));
    let color = Color::Spec(Rgb { r: 1, g: 2, b: 3 });
    assert_eq!(attrs(&[38, 2, 1, 2, 3, 1]), vec![Some(Attr::Foreground(color)), Some(Attr::Bold)]);
    assert_eq!(attrs(&[48, 5, 200]), vec![Some(Attr::Background(Color::Indexed(200)))]);
    assert_eq!(attrs(&[38]), vec![None]);
    assert_eq!(attrs(&[38, 5]), vec![None]);
    assert_eq!(attrs(&[38, 5, 256, 1]), vec![None, Some(Attr::Bold)]);
    assert_eq!(attrs(&[38, 2, 300, 4, 5]), vec![
        None,
        Some(Attr::Underline),
        Some(Attr::BlinkSlow),
    ]);
    assert_eq!(attrs(&[38, 7, 1]), vec![None, Some(Attr::Bold)]);
}

#[test]
fn color_specifiers() {
    assert_eq!(parse_sgr_color(&[]), (None, 0));
    assert_eq!(parse_sgr_color(&[2]), (None, 1));
    assert_eq!(parse_sgr_color(&[2, 1]), (None, 2));
    assert_eq!(parse_sgr_color(&[2, 1, 256]), (None, 3));
    assert_eq!(parse_sgr_color(&[2, 1, 2, 256, 4]), (None, 4));
    assert_eq!(
        parse_sgr_color(&[2, 1, 2, 3, 4]),
        (Some(Color::Spec(Rgb { r: 1, g: 2, b: 3 })), 4)
    );
    assert_eq!(parse_sgr_color(&[5, 255]), (Some(Color::Indexed(255)), 2));
    assert_eq!(parse_sgr_color(&[5, 256]), (None, 2));
    assert_eq!(parse_sgr_color(&[3, 1]), (None, 1));
}

#[test]
fn glyphs_of_the_character_sets() {
    let drawing = StandardCharset::SpecialCharacterAndLineDrawing;
    let expected = "◆▒\t\u{c}\r\n°±\u{2424}\u{b}┘┐┌└┼⎺⎻─⎼⎽├┤┴┬│≤≥π≠£·";
    for (c, glyph) in ('`'..='~').zip(expected.chars()) {
        assert_eq!(drawing.map(c), glyph);
    }
    assert_eq!(expected.chars().count(), 31);
    for c in ['A', '_', '\u{7f}', 'é', '─'] {
        assert_eq!(drawing.map(c), c);
    }
    for c in ['a', 'q', '~', 'é'] {
        assert_eq!(StandardCharset::Ascii.map(c), c);
    }
}

#[test]
fn commands_without_a_code() {
    assert_eq!(osc(&[]), vec![]);
    assert_eq!(osc(&[b""]), vec![]);
    assert_eq!(osc(&[b"", b"x"]), vec![]);
    assert_eq!(osc(&[b"1", b"x"]), vec![osc_unhandled(&[b"1", b"x"])]);
    assert_eq!(
        osc_dispatch(&[b"00"], false),
        vec![Action::UnhandledOscDispatch(vec![b"00".to_vec()], false)]
    );
}

#[test]
fn commands_that_set_the_title() {
    let title = |text: &str| vec![Action::SetTitle(Some(text.to_string()))];
    assert_eq!(osc(&[b"0", b"shell"]), title("shell"));
    assert_eq!(osc(&[b"2", b"a", b"b", b"c"]), title("a;b;c"));
    assert_eq!(osc(&[b"2", b" \t spaced out \n"]), title("spaced out"));
    assert_eq!(osc(&[b"2", "\u{3000}\u{85}é\u{a0}".as_bytes()]), title("é"));
    assert_eq!(osc(&[b"2", b"\x0b\x0c \x1c"]), title("\x1c"));
    assert_eq!(osc(&[b"2", b"a", &[0xff], b"b"]), title("a;b"));
    assert_eq!(osc(&[b"2", &[0xc3]]), title(""));
    assert_eq!(osc(&[b"2", b"", b"a"]), title(";a"));
    assert_eq!(osc(&[b"2", b""]), title(""));
    assert_eq!(osc(&[b"0"]), vec![osc_unhandled(&[b"0"])]);
}

#[test]
fn commands_that_set_an_indexed_color() {
    let red = Rgb { r: 255, g: 0, b: 0 };
    assert_eq!(osc(&[b"4", b"7", b"#ff0000"]), vec![Action::SetColor(7, red)]);
    // Only the first pair that gives a color has an effect.
    assert_eq!(
        osc(&[b"4", b"x", b"#ff0000", b"8", b"rgb:ff/0/0", b"9", b"#ff0000"]),
        vec![Action::SetColor(8, red)]
    );
    assert_eq!(osc(&[b"4"]), vec![osc_unhandled(&[b"4"])]);
    assert_eq!(osc(&[b"4", b"7"]), vec![osc_unhandled(&[b"4", b"7"])]);
    assert_eq!(osc(&[b"4", b"256", b"#fff"]), vec![osc_unhandled(&[b"4", b"256", b"#fff"])]);
    assert_eq!(osc(&[b"4", b"7", b"?"]), vec![osc_unhandled(&[b"4", b"7", b"?"])]);
}

#[test]
fn commands_that_set_dynamic_colors() {
    let red = Rgb { r: 255, g: 0, b: 0 };
    let fields: &[&[u8]] = &[b"10", b"#ff0000", b"?", b"#ff0000", b"#ff0000", b"#ff0000"];
    assert_eq!(osc(fields), vec![
        Action::SetColor(256, red),
        osc_unhandled(fields),
        Action::SetColor(258, red),
        osc_unhandled(fields),
    ]);
    assert_eq!(osc(&[b"11", b"#ff0000"]), vec![Action::SetColor(257, red)]);
    let fields: &[&[u8]] = &[b"12", b"#ff0000", b"#ff0000"];
    assert_eq!(osc(fields), vec![Action::SetColor(258, red), osc_unhandled(fields)]);
    assert_eq!(osc(&[b"10"]), vec![osc_unhandled(&[b"10"])]);
}

#[test]
fn commands_that_set_the_cursor_shape() {
    let shape = |shape| vec![Action::SetCursorShape(shape)];
    assert_eq!(osc(&[b"50", b"CursorShape=0"]), shape(CursorShape::Block));
    assert_eq!(osc(&[b"50", b"CursorShape=1"]), shape(CursorShape::Beam));
    assert_eq!(osc(&[b"50", b"CursorShape=2rest"]), shape(CursorShape::Underline));
    assert_eq!(osc(&[b"50", b"CursorShape=3"]), vec![osc_unhandled(&[b"50", b"CursorShape=3"])]);
    assert_eq!(osc(&[b"50", b"CursorShape="]), vec![osc_unhandled(&[b"50", b"CursorShape="])]);
    assert_eq!(osc(&[b"50", b"cursorShape=0"]), vec![osc_unhandled(&[b"50", b"cursorShape=0"])]);
    assert_eq!(osc(&[b"50"]), vec![osc_unhandled(&[b"50"])]);
}

#[test]
fn commands_that_reset_colors() {
    let all = osc(&[b"104"]);
    assert_eq!(all.len(), 256);
    for (index, action) in all.iter().enumerate() {
        assert_eq!(*action, Action::ResetColor(index));
    }
    assert_eq!(osc(&[b"104", b"3", b"x", b"5"]), vec![
        Action::ResetColor(3),
        osc_unhandled(&[b"104", b"3", b"x", b"5"]),
        Action::ResetColor(5),
    ]);
    assert_eq!(osc(&[b"110"]), vec![Action::ResetColor(256)]);
    assert_eq!(osc(&[b"111"]), vec![Action::ResetColor(257)]);
    assert_eq!(osc(&[b"112"]), vec![Action::ResetColor(258)]);
}

#[test]
fn shell_integration_without_a_value() {
    assert_eq!(osc(&[b"697"]), vec![]);
    assert_eq!(osc(&[b"697", b"NewCmd"]), vec![Action::NewCmd(String::new())]);
    assert_eq!(osc(&[b"697", b"StartPrompt"]), vec![Action::StartPrompt]);
    assert_eq!(osc(&[b"697", b"EndPrompt"]), vec![Action::EndPrompt]);
    assert_eq!(osc(&[b"697", b"PreExec"]), vec![Action::PreExec]);
    assert_eq!(osc(&[b"697", b"Unknown"]), vec![]);
    assert_eq!(osc(&[b"697", b""]), vec![]);
}

#[test]
fn shell_integration_with_a_text() {
    let keyed = |field: &[u8]| osc(&[b"697", field]);
    let text = "v\u{e4}l=1".to_string();
    let field = |key: &str| format!("{}={}", key, text).into_bytes();
    assert_eq!(keyed(&field("Dir")), vec![Action::Dir(text.clone())]);
    assert_eq!(keyed(&field("ShellPath")), vec![Action::ShellPath(text.clone())]);
    assert_eq!(keyed(&field("WSLDistro")), vec![Action::WslDistro(text.clone())]);
    assert_eq!(keyed(&field("Shell")), vec![Action::Shell(text.clone())]);
    assert_eq!(
        keyed(&field("FishSuggestionColor")),
        vec![Action::FishSuggestionColor(text.clone())]
    );
    assert_eq!(
        keyed(&field("ZshAutosuggestionColor")),
        vec![Action::ZshSuggestionColor(text.clone())]
    );
    assert_eq!(
        keyed(&field("FigAutosuggestionColor")),
        vec![Action::FigSuggestionColor(text.clone())]
    );
    assert_eq!(keyed(&field("NuHintColor")), vec![Action::NuHintColor(text.clone())]);
    assert_eq!(keyed(&field("TTY")), vec![Action::Tty(text.clone())]);
    assert_eq!(keyed(&field("User")), vec![Action::Username(text.clone())]);
    assert_eq!(keyed(&field("Log")), vec![Action::Log(text.clone())]);
    assert_eq!(keyed(&field("NewCmd")), vec![Action::NewCmd(text.clone())]);
    assert_eq!(keyed(&field("OSCLock")), vec![Action::OscLock(text.clone())]);
    assert_eq!(keyed(&field("OSCUnlock")), vec![Action::OscUnlock(text.clone())]);
    assert_eq!(keyed(b"Dir=\xff"), vec![]);
}

#[test]
fn shell_integration_with_a_number() {
    assert_eq!(osc(&[b"697", b"ExitCode=127"]), vec![Action::ExitCode(127)]);
    assert_eq!(osc(&[b"697", b"ExitCode=-1"]), vec![Action::ExitCode(-1)]);
    assert_eq!(osc(&[b"697", b"ExitCode=one"]), vec![]);
    assert_eq!(osc(&[b"697", b"ExitCode=\xff"]), vec![]);
    assert_eq!(osc(&[b"697", b"PID=42"]), vec![Action::Pid(42)]);
    assert_eq!(osc(&[b"697", b"PID=99999999999"]), vec![]);
}

#[test]
fn shell_integration_that_nothing_handles() {
    assert_eq!(osc(&[b"697", b"Dir="]), vec![osc_unhandled(&[b"697", b"Dir="])]);
    assert_eq!(osc(&[b"697", b"Hostname=x"]), vec![osc_unhandled(&[b"697", b"Hostname=x"])]);
    assert_eq!(osc(&[b"697", b"Unknown=\xff"]), vec![osc_unhandled(&[b"697", b"Unknown=\xff"])]);
    assert_eq!(osc(&[b"697", b"=x"]), vec![osc_unhandled(&[b"697", b"=x"])]);
}
