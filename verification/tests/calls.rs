//! What a handler receives, call by call, for the bytes of a stream.

use ansi_terminal::action::{perform_all, Action};
use ansi_terminal::attr::Attr;
use ansi_terminal::charset::{CharsetIndex, StandardCharset};
use ansi_terminal::color::Rgb;
use ansi_terminal::cursor::{CursorShape, CursorStyle};
use ansi_terminal::handler::{HandledStatus, Handler};
use ansi_terminal::index::{Column, Line};
use ansi_terminal::mode::{ClearMode, LineClearMode, Mode, TabulationClearMode};
use ansi_terminal::params::ParamList;
use ansi_terminal::processor::Processor;

/// A handler that takes down every call.
#[derive(Default)]
struct Recorder {
    actions: Vec<Action>,
}

impl Handler for Recorder {
    fn set_title(&mut self, title: Option<String>) {
        self.actions.push(Action::SetTitle(title));
    }

    fn set_cursor_style(&mut self, style: Option<CursorStyle>) {
        self.actions.push(Action::SetCursorStyle(style));
    }

    fn set_cursor_shape(&mut self, shape: CursorShape) {
        self.actions.push(Action::SetCursorShape(shape));
    }

    fn input(&mut self, c: char) {
        self.actions.push(Action::Input(c));
    }

    fn goto(&mut self, line: Line, column: Column) {
        self.actions.push(Action::Goto(line, column));
    }

    fn goto_line(&mut self, line: Line) {
        self.actions.push(Action::GotoLine(line));
    }

    fn goto_col(&mut self, column: Column) {
        self.actions.push(Action::GotoCol(column));
    }

    fn insert_blank(&mut self, count: usize) {
        self.actions.push(Action::InsertBlank(count));
    }

    fn move_up(&mut self, rows: usize) {
        self.actions.push(Action::MoveUp(rows));
    }

    fn move_down(&mut self, rows: usize) {
        self.actions.push(Action::MoveDown(rows));
    }

    fn move_forward(&mut self, cols: Column) {
        self.actions.push(Action::MoveForward(cols));
    }

    fn move_backward(&mut self, cols: Column) {
        self.actions.push(Action::MoveBackward(cols));
    }

    fn move_down_and_cr(&mut self, rows: usize) {
        self.actions.push(Action::MoveDownAndCr(rows));
    }

    fn move_up_and_cr(&mut self, rows: usize) {
        self.actions.push(Action::MoveUpAndCr(rows));
    }

    fn put_tab(&mut self, count: u16) {
        self.actions.push(Action::PutTab(count));
    }

    fn backspace(&mut self) {
        self.actions.push(Action::Backspace);
    }

    fn carriage_return(&mut self) {
        self.actions.push(Action::CarriageReturn);
    }

    fn linefeed(&mut self) {
        self.actions.push(Action::Linefeed);
    }

    fn bell(&mut self) {
        self.actions.push(Action::Bell);
    }

    fn substitute(&mut self) {
        self.actions.push(Action::Substitute);
    }

    fn set_horizontal_tabstop(&mut self) {
        self.actions.push(Action::SetHorizontalTabstop);
    }

    fn scroll_up(&mut self, rows: usize) {
        self.actions.push(Action::ScrollUp(rows));
    }

    fn scroll_down(&mut self, rows: usize) {
        self.actions.push(Action::ScrollDown(rows));
    }

    fn insert_blank_lines(&mut self, count: usize) {
        self.actions.push(Action::InsertBlankLines(count));
    }

    fn delete_lines(&mut self, count: usize) {
        self.actions.push(Action::DeleteLines(count));
    }

    fn erase_chars(&mut self, count: Column) {
        self.actions.push(Action::EraseChars(count));
    }

    fn delete_chars(&mut self, count: usize) {
        self.actions.push(Action::DeleteChars(count));
    }

    fn move_backward_tabs(&mut self, count: u16) {
        self.actions.push(Action::MoveBackwardTabs(count));
    }

    fn move_forward_tabs(&mut self, count: u16) {
        self.actions.push(Action::MoveForwardTabs(count));
    }

    fn save_cursor_position(&mut self) {
        self.actions.push(Action::SaveCursorPosition);
    }

    fn restore_cursor_position(&mut self) {
        self.actions.push(Action::RestoreCursorPosition);
    }

    fn clear_line(&mut self, mode: LineClearMode) {
        self.actions.push(Action::ClearLine(mode));
    }

    fn clear_screen(&mut self, mode: ClearMode) {
        self.actions.push(Action::ClearScreen(mode));
    }

    fn clear_tabs(&mut self, mode: TabulationClearMode) {
        self.actions.push(Action::ClearTabs(mode));
    }

    fn reset_state(&mut self) {
        self.actions.push(Action::ResetState);
    }

    fn reverse_index(&mut self) {
        self.actions.push(Action::ReverseIndex);
    }

    fn terminal_attribute(&mut self, attr: Attr) {
        self.actions.push(Action::TerminalAttribute(attr));
    }

    fn set_mode(&mut self, mode: Mode) {
        self.actions.push(Action::SetMode(mode));
    }

    fn unset_mode(&mut self, mode: Mode) {
        self.actions.push(Action::UnsetMode(mode));
    }

    fn set_scrolling_region(&mut self, top: usize, bottom: Option<usize>) {
        self.actions.push(Action::SetScrollingRegion(top, bottom));
    }

    fn set_keypad_application_mode(&mut self) {
        self.actions.push(Action::SetKeypadApplicationMode);
    }

    fn unset_keypad_application_mode(&mut self) {
        self.actions.push(Action::UnsetKeypadApplicationMode);
    }

    fn set_active_charset(&mut self, index: CharsetIndex) {
        self.actions.push(Action::SetActiveCharset(index));
    }

    fn configure_charset(&mut self, index: CharsetIndex, charset: StandardCharset) {
        self.actions.push(Action::ConfigureCharset(index, charset));
    }

    fn set_color(&mut self, index: usize, color: Rgb) {
        self.actions.push(Action::SetColor(index, color));
    }

    fn reset_color(&mut self, index: usize) {
        self.actions.push(Action::ResetColor(index));
    }

    fn decaln(&mut self) {
        self.actions.push(Action::Decaln);
    }

    fn push_title(&mut self) {
        self.actions.push(Action::PushTitle);
    }

    fn pop_title(&mut self) {
        self.actions.push(Action::PopTitle);
    }

    fn new_cmd(&mut self, command: &str) {
        self.actions.push(Action::NewCmd(command.to_string()));
    }

    fn start_prompt(&mut self) {
        self.actions.push(Action::StartPrompt);
    }

    fn end_prompt(&mut self) {
        self.actions.push(Action::EndPrompt);
    }

    fn pre_exec(&mut self) {
        self.actions.push(Action::PreExec);
    }

    fn dir(&mut self, path: &str) {
        self.actions.push(Action::Dir(path.to_string()));
    }

    fn shell_path(&mut self, path: &str) {
        self.actions.push(Action::ShellPath(path.to_string()));
    }

    fn wsl_distro(&mut self, distro: &str) {
        self.actions.push(Action::WslDistro(distro.to_string()));
    }

    fn exit_code(&mut self, code: i32) {
        self.actions.push(Action::ExitCode(code));
    }

    fn shell(&mut self, shell: &str) {
        self.actions.push(Action::Shell(shell.to_string()));
    }

    fn fish_suggestion_color(&mut self, color: &str) {
        self.actions.push(Action::FishSuggestionColor(color.to_string()));
    }

    fn zsh_suggestion_color(&mut self, color: &str) {
        self.actions.push(Action::ZshSuggestionColor(color.to_string()));
    }

    fn fig_suggestion_color(&mut self, color: &str) {
        self.actions.push(Action::FigSuggestionColor(color.to_string()));
    }

    fn nu_hint_color(&mut self, color: &str) {
        self.actions.push(Action::NuHintColor(color.to_string()));
    }

    fn tty(&mut self, tty: &str) {
        self.actions.push(Action::Tty(tty.to_string()));
    }

    fn pid(&mut self, pid: i32) {
        self.actions.push(Action::Pid(pid));
    }

    fn username(&mut self, name: &str) {
        self.actions.push(Action::Username(name.to_string()));
    }

    fn log(&mut self, level: &str) {
        self.actions.push(Action::Log(level.to_string()));
    }

    fn osc_lock(&mut self, session: &str) {
        self.actions.push(Action::OscLock(session.to_string()));
    }

    fn osc_unlock(&mut self, session: &str) {
        self.actions.push(Action::OscUnlock(session.to_string()));
    }

    fn unhandled_execute(&mut self, byte: u8) -> HandledStatus {
        self.actions.push(Action::UnhandledExecute(byte));
        HandledStatus::Handled
    }

    fn unhandled_hook(
        &mut self,
        params: &ParamList,
        intermediates: &[u8],
        ignore: bool,
        action: char,
    ) -> HandledStatus {
        self.actions.push(
            Action::UnhandledHook(params.clone(), intermediates.to_vec(), ignore, action),
        );
        HandledStatus::Handled
    }

    fn unhandled_put(&mut self, byte: u8) -> HandledStatus {
        self.actions.push(Action::UnhandledPut(byte));
        HandledStatus::Handled
    }

    fn unhandled_unhook(&mut self) -> HandledStatus {
        self.actions.push(Action::UnhandledUnhook);
        HandledStatus::Handled
    }

    fn unhandled_osc_dispatch(
        &mut self,
        params: &[&[u8]],
        bell_terminated: bool,
    ) -> HandledStatus {
        self.actions.push(
            Action::UnhandledOscDispatch(params.iter().map(|field| field.to_vec()).collect(), bell_terminated),
        );
        HandledStatus::Handled
    }

    fn unhandled_csi_dispatch(
        &mut self,
        params: &ParamList,
        intermediates: &[u8],
        ignore: bool,
        action: char,
    ) -> HandledStatus {
        self.actions.push(
            Action::UnhandledCsiDispatch(params.clone(), intermediates.to_vec(), ignore, action),
        );
        HandledStatus::Handled
    }

    fn unhandled_esc_dispatch(
        &mut self,
        intermediates: &[u8],
        ignore: bool,
        byte: u8,
    ) -> HandledStatus {
        self.actions.push(Action::UnhandledEscDispatch(intermediates.to_vec(), ignore, byte));
        HandledStatus::Handled
    }
}

fn params(values: &[&[u16]]) -> ParamList {
    match ParamList::new(values.iter().map(|group| group.to_vec()).collect()) {
        Some(params) => params,
        None => panic!("a parameter without a value"),
    }
}

/// Feeds bytes to a processor and gives the calls that come of them.
fn advance(processor: &mut Processor, bytes: &[u8]) -> Vec<Action> {
    let mut recorder = Recorder::default();
    for byte in bytes {
        processor.advance(&mut recorder, *byte);
    }
    recorder.actions
}

/// Ends a synchronized update and gives the calls that come of it.
fn stop(processor: &mut Processor) -> Vec<Action> {
    let mut recorder = Recorder::default();
    processor.stop_sync(&mut recorder);
    recorder.actions
}

/// The calls that come of bytes in a new processor.
fn calls(bytes: &[u8]) -> Vec<Action> {
    advance(&mut Processor::new(), bytes)
}

fn input(text: &str) -> Vec<Action> {
    text.chars().map(|c| Action::Input(c)).collect()
}

#[test]
fn every_action_is_a_call_of_its_method() {
    let list = params(&[&[1, 2], &[3]]);
    let actions = vec![
        Action::SetTitle(Some("title".to_string())),
        Action::SetTitle(None),
        Action::SetCursorStyle(Some(CursorStyle { shape: CursorShape::Beam, blinking: true })),
        Action::SetCursorShape(CursorShape::Underline),
        Action::Input('x'),
        Action::Goto(Line(1), Column(2)),
        Action::GotoLine(Line(3)),
        Action::GotoCol(Column(4)),
        Action::InsertBlank(5),
        Action::MoveUp(6),
        Action::MoveDown(7),
        Action::MoveForward(Column(8)),
        Action::MoveBackward(Column(9)),
        Action::MoveDownAndCr(10),
        Action::MoveUpAndCr(11),
        Action::PutTab(12),
        Action::Backspace,
        Action::CarriageReturn,
        Action::Linefeed,
        Action::Bell,
        Action::Substitute,
        Action::SetHorizontalTabstop,
        Action::ScrollUp(13),
        Action::ScrollDown(14),
        Action::InsertBlankLines(15),
        Action::DeleteLines(16),
        Action::EraseChars(Column(17)),
        Action::DeleteChars(18),
        Action::MoveBackwardTabs(19),
        Action::MoveForwardTabs(20),
        Action::SaveCursorPosition,
        Action::RestoreCursorPosition,
        Action::ClearLine(LineClearMode::Left),
        Action::ClearScreen(ClearMode::Saved),
        Action::ClearTabs(TabulationClearMode::All),
        Action::ResetState,
        Action::ReverseIndex,
        Action::TerminalAttribute(Attr::Italic),
        Action::SetMode(Mode::Origin),
        Action::UnsetMode(Mode::LineWrap),
        Action::SetScrollingRegion(21, Some(22)),
        Action::SetKeypadApplicationMode,
        Action::UnsetKeypadApplicationMode,
        Action::SetActiveCharset(CharsetIndex::G2),
        Action::ConfigureCharset(CharsetIndex::G3, StandardCharset::Ascii),
        Action::SetColor(23, Rgb { r: 1, g: 2, b: 3 }),
        Action::ResetColor(24),
        Action::Decaln,
        Action::PushTitle,
        Action::PopTitle,
        Action::NewCmd("command".to_string()),
        Action::StartPrompt,
        Action::EndPrompt,
        Action::PreExec,
        Action::Dir("/tmp".to_string()),
        Action::ShellPath("/bin/zsh".to_string()),
        Action::WslDistro("distro".to_string()),
        Action::ExitCode(-25),
        Action::Shell("zsh".to_string()),
        Action::FishSuggestionColor("fish".to_string()),
        Action::ZshSuggestionColor("zsh color".to_string()),
        Action::FigSuggestionColor("fig".to_string()),
        Action::NuHintColor("nu".to_string()),
        Action::Tty("/dev/ttys001".to_string()),
        Action::Pid(26),
        Action::Username("user".to_string()),
        Action::Log("debug".to_string()),
        Action::OscLock("lock".to_string()),
        Action::OscUnlock("unlock".to_string()),
        Action::UnhandledExecute(27),
        Action::UnhandledHook(list.clone(), b"!".to_vec(), true, 'p'),
        Action::UnhandledPut(28),
        Action::UnhandledUnhook,
        Action::UnhandledOscDispatch(vec![b"99".to_vec(), b"".to_vec()], true),
        Action::UnhandledCsiDispatch(list.clone(), b"?".to_vec(), false, 'y'),
        Action::UnhandledEscDispatch(b"%".to_vec(), false, b'G'),
    ];
    let mut recorder = Recorder::default();
    perform_all(&actions, &mut recorder);
    assert_eq!(recorder.actions, actions);
}

#[test]
fn text_is_shown_character_by_character() {
    assert_eq!(calls("plain, \u{e4}, \u{279c}, \u{1f980}".as_bytes()), input("plain, \u{e4}, \u{279c}, \u{1f980}"));
    assert_eq!(calls(&[0xe2, 0x9e]), vec![]);
    assert_eq!(calls(&[0xff, b'a']), input("\u{fffd}a"));
}

#[test]
fn control_characters_are_found_in_the_stream() {
    assert_eq!(calls(b"a\tb\r\n\x07"), vec![
        Action::Input('a'),
        Action::PutTab(1),
        Action::Input('b'),
        Action::CarriageReturn,
        Action::Linefeed,
        Action::Bell,
    ]);
}

#[test]
fn control_sequences_are_found_in_the_stream() {
    assert_eq!(calls(b"\x1b[5;10H"), vec![Action::Goto(Line(4), Column(9))]);
    assert_eq!(calls(b"\x1b[?25l"), vec![Action::UnsetMode(Mode::ShowCursor)]);
    assert_eq!(calls(b"\x1b[4:2m"), vec![Action::TerminalAttribute(Attr::DoubleUnderline)]);
    assert_eq!(calls(b"\x1b[m"), vec![Action::TerminalAttribute(Attr::Reset)]);
    assert_eq!(
        calls(b"\x1b[1;2:3;4>y"),
        vec![]
    );
    assert_eq!(calls(b"\x1b[>1;2:3y"), vec![
        Action::UnhandledCsiDispatch(params(&[&[1], &[2, 3]]), b">".to_vec(), false, 'y'),
    ]);
}

#[test]
fn repetition_takes_the_last_shown_character() {
    assert_eq!(calls(b"\x1b[3b"), vec![]);
    assert_eq!(calls(b"ab\x1b[3b"), input("abbbb"));
    assert_eq!(calls(b"ab\r\x1b[2b"), vec![
        Action::Input('a'),
        Action::Input('b'),
        Action::CarriageReturn,
        Action::Input('b'),
        Action::Input('b'),
    ]);
}

#[test]
fn commands_are_found_in_the_stream() {
    assert_eq!(calls(b"\x1b]0;one;two\x07"), vec![Action::SetTitle(Some("one;two".to_string()))]);
    assert_eq!(calls(b"\x1b]2; a \x1b\\"), vec![Action::SetTitle(Some("a".to_string()))]);
    assert_eq!(calls(b"\x1b]697;Dir=/tmp\x07"), vec![Action::Dir("/tmp".to_string())]);
    assert_eq!(calls(b"\x1b]9;x\x07"), vec![
        Action::UnhandledOscDispatch(vec![b"9".to_vec(), b"x".to_vec()], true),
    ]);
    assert_eq!(calls(b"\x1b]9;x\x1b\\"), vec![
        Action::UnhandledOscDispatch(vec![b"9".to_vec(), b"x".to_vec()], false),
    ]);
}

#[test]
fn device_control_strings_are_passed_on() {
    assert_eq!(calls(b"\x1bP1$qm\x1b\\"), vec![
        Action::UnhandledHook(params(&[&[1]]), b"$".to_vec(), false, 'q'),
        Action::UnhandledPut(b'm'),
        Action::UnhandledUnhook,
    ]);
}

#[test]
fn escape_sequences_are_found_in_the_stream() {
    assert_eq!(calls(b"\x1bE\x1b#8"), vec![
        Action::Linefeed,
        Action::CarriageReturn,
        Action::Decaln,
    ]);
    assert_eq!(calls(b"\x1b%G"), vec![Action::UnhandledEscDispatch(b"%".to_vec(), false, b'G')]);
}

const START: &[u8] = b"\x1bP=1s\x1b\\";
const END: &[u8] = b"\x1bP=2s\x1b\\";

#[test]
fn new_processor_is_not_in_an_update() {
    let processor = Processor::new();
    assert_eq!(processor.sync_timeout(), None);
    assert_eq!(processor.sync_bytes_count(), 0);
    assert_eq!(Processor::default().sync_bytes_count(), 0);
}

#[test]
fn update_holds_bytes_back_until_its_end() {
    let mut processor = Processor::new();
    assert_eq!(advance(&mut processor, b"a"), input("a"));
    // The ESC of the termination sequence starts the update; what follows is held back.
    assert_eq!(advance(&mut processor, START), vec![]);
    assert_eq!(processor.sync_timeout().is_some(), true);
    assert_eq!(processor.sync_bytes_count(), 1);
    assert_eq!(advance(&mut processor, b"bc\r"), vec![]);
    assert_eq!(processor.sync_bytes_count(), 4);
    let mut expected = input("bc");
    expected.push(Action::CarriageReturn);
    assert_eq!(advance(&mut processor, &END[..5]), vec![]);
    assert_eq!(processor.sync_bytes_count(), 9);
    assert_eq!(advance(&mut processor, &END[5..6]), expected);
    assert_eq!(processor.sync_timeout(), None);
    assert_eq!(processor.sync_bytes_count(), 0);
    assert_eq!(advance(&mut processor, &END[6..]), vec![]);
    assert_eq!(advance(&mut processor, b"d"), input("d"));
}

#[test]
fn update_expires_after_its_time() {
    let before = std::time::Instant::now();
    let mut processor = Processor::new();
    advance(&mut processor, START);
    let after = std::time::Instant::now();
    let time = std::time::Duration::from_millis(150);
    let timeout = match processor.sync_timeout() {
        Some(timeout) => *timeout,
        None => panic!("no update"),
    };
    assert_eq!(timeout >= before + time, true);
    assert_eq!(timeout <= after + time, true);
}

#[test]
fn update_can_be_stopped() {
    let mut processor = Processor::new();
    advance(&mut processor, START);
    assert_eq!(advance(&mut processor, b"xyz"), vec![]);
    assert_eq!(stop(&mut processor), input("xyz"));
    assert_eq!(processor.sync_timeout(), None);
    assert_eq!(processor.sync_bytes_count(), 0);
    assert_eq!(stop(&mut processor), vec![]);
    assert_eq!(advance(&mut processor, b"w"), input("w"));
}

#[test]
fn update_is_extended_by_another_start() {
    let mut processor = Processor::new();
    advance(&mut processor, START);
    let first = match processor.sync_timeout() {
        Some(timeout) => *timeout,
        None => panic!("no update"),
    };
    assert_eq!(advance(&mut processor, b"x"), vec![]);
    assert_eq!(processor.sync_timeout(), Some(&first));
    assert_eq!(advance(&mut processor, START), vec![]);
    let second = match processor.sync_timeout() {
        Some(timeout) => *timeout,
        None => panic!("no update"),
    };
    assert_eq!(second >= first, true);
    // The start that was held back does not start an update of its own.
    assert_eq!(advance(&mut processor, END), input("x"));
    assert_eq!(processor.sync_timeout(), None);
}

#[test]
fn string_that_is_broken_off_does_not_end_an_update() {
    for byte in [0x18, 0x1a, 0x80, 0x9f] {
        let mut processor = Processor::new();
        advance(&mut processor, START);
        assert_eq!(advance(&mut processor, b"\x1bP=2s"), vec![]);
        assert_eq!(advance(&mut processor, &[byte]), vec![]);
        assert_eq!(advance(&mut processor, b"\x1b"), vec![]);
        assert_eq!(processor.sync_timeout().is_some(), true);
    }
    for byte in [0x00, 0x17, 0x19, 0x1c, 0x7f, 0xa0, 0xff] {
        let mut processor = Processor::new();
        advance(&mut processor, START);
        advance(&mut processor, b"\x1bP=2s");
        assert_eq!(advance(&mut processor, &[byte]), vec![]);
        assert_eq!(processor.sync_timeout().is_some(), true);
        advance(&mut processor, b"\x1b");
        assert_eq!(processor.sync_timeout(), None);
    }
}

#[test]
fn update_only_delays_what_it_holds_back() {
    let text: &[u8] = b"one\x1b[1mtwo\x1b[3b\x1b]2;title\x07\xc3\xa4\x1b(0q\x0e";
    let direct = calls(text);
    let mut processor = Processor::new();
    let mut delayed = advance(&mut processor, START);
    delayed.extend(advance(&mut processor, text));
    assert_eq!(delayed, vec![]);
    delayed.extend(advance(&mut processor, END));
    assert_eq!(delayed, direct);
}

#[test]
fn full_buffer_ends_an_update() {
    let limit: usize = 0x20_0000;
    for last in [b'x', 0x1b, 0x18] {
        let mut processor = Processor::new();
        let mut recorder = Recorder::default();
        for byte in START {
            processor.advance(&mut recorder, *byte);
        }
        while processor.sync_bytes_count() < limit - 1 {
            processor.advance(&mut recorder, b'y');
        }
        assert_eq!(recorder.actions, vec![]);
        assert_eq!(processor.sync_timeout().is_some(), true);
        processor.advance(&mut recorder, last);
        assert_eq!(processor.sync_bytes_count(), 0);
        assert_eq!(processor.sync_timeout(), None);
        // All bytes but the rest of the start string and the last one are shown.
        let shown = recorder.actions.iter().filter(|action| **action == Action::Input('y')).count();
        assert_eq!(shown, limit - 2);
        processor.advance(&mut recorder, b'z');
        assert_eq!(processor.sync_bytes_count(), 0);
    }
}

#[test]
fn stopped_update_leaves_no_string_pending() {
    let mut processor = Processor::new();
    advance(&mut processor, START);
    advance(&mut processor, b"\x1bP=2s");
    stop(&mut processor);
    // The parser is still in the string, and the next ESC ends it.
    assert_eq!(advance(&mut processor, b"\x1b\\"), vec![]);
    advance(&mut processor, START);
    assert_eq!(advance(&mut processor, b"x\x1b[1m"), vec![]);
    assert_eq!(processor.sync_timeout().is_some(), true);
}

#[test]
fn string_without_the_parameter_one_starts_no_update() {
    for string in [b"\x1bP=2s\x1b", b"\x1bP=0s\x1b", b"\x1bP=7s\x1b"] {
        let mut processor = Processor::new();
        assert_eq!(advance(&mut processor, string), vec![Action::UnhandledUnhook]);
        assert_eq!(processor.sync_timeout(), None);
    }
}

#[test]
fn other_string_after_an_update_starts_none() {
    let mut processor = Processor::new();
    advance(&mut processor, START);
    advance(&mut processor, END);
    assert_eq!(processor.sync_timeout(), None);
    assert_eq!(advance(&mut processor, b"\x1bP1$q\x1b\\"), vec![
        Action::UnhandledHook(params(&[&[1]]), b"$".to_vec(), false, 'q'),
    ]);
    assert_eq!(processor.sync_timeout(), None);
    advance(&mut processor, START);
    assert_eq!(processor.sync_timeout().is_some(), true);
}
