//! Actions: what a handler is asked to do, as values.

use vstd::prelude::*;

use crate::attr::Attr;
use crate::bytes::{as_slices, slice_views, vec_views};
use crate::charset::{CharsetIndex, StandardCharset};
use crate::color::Rgb;
use crate::cursor::{CursorShape, CursorStyle};
use crate::handler::{HandledStatus, Handler};
use crate::index::{Column, Line};
use crate::mode::{ClearMode, LineClearMode, Mode, TabulationClearMode};
use crate::params::ParamList;

verus! {

/// A call of one method of a [`Handler`], with its arguments.
#[derive(Debug, PartialEq, Eq)]
pub enum Action {
    /// `Handler::set_title`
    SetTitle(Option<String>),
    /// `Handler::set_cursor_style`
    SetCursorStyle(Option<CursorStyle>),
    /// `Handler::set_cursor_shape`
    SetCursorShape(CursorShape),
    /// `Handler::input`
    Input(char),
    /// `Handler::goto`
    Goto(Line, Column),
    /// `Handler::goto_line`
    GotoLine(Line),
    /// `Handler::goto_col`
    GotoCol(Column),
    /// `Handler::insert_blank`
    InsertBlank(usize),
    /// `Handler::move_up`
    MoveUp(usize),
    /// `Handler::move_down`
    MoveDown(usize),
    /// `Handler::move_forward`
    MoveForward(Column),
    /// `Handler::move_backward`
    MoveBackward(Column),
    /// `Handler::move_down_and_cr`
    MoveDownAndCr(usize),
    /// `Handler::move_up_and_cr`
    MoveUpAndCr(usize),
    /// `Handler::put_tab`
    PutTab(u16),
    /// `Handler::backspace`
    Backspace,
    /// `Handler::carriage_return`
    CarriageReturn,
    /// `Handler::linefeed`
    Linefeed,
    /// `Handler::bell`
    Bell,
    /// `Handler::substitute`
    Substitute,
    /// `Handler::set_horizontal_tabstop`
    SetHorizontalTabstop,
    /// `Handler::scroll_up`
    ScrollUp(usize),
    /// `Handler::scroll_down`
    ScrollDown(usize),
    /// `Handler::insert_blank_lines`
    InsertBlankLines(usize),
    /// `Handler::delete_lines`
    DeleteLines(usize),
    /// `Handler::erase_chars`
    EraseChars(Column),
    /// `Handler::delete_chars`
    DeleteChars(usize),
    /// `Handler::move_backward_tabs`
    MoveBackwardTabs(u16),
    /// `Handler::move_forward_tabs`
    MoveForwardTabs(u16),
    /// `Handler::save_cursor_position`
    SaveCursorPosition,
    /// `Handler::restore_cursor_position`
    RestoreCursorPosition,
    /// `Handler::clear_line`
    ClearLine(LineClearMode),
    /// `Handler::clear_screen`
    ClearScreen(ClearMode),
    /// `Handler::clear_tabs`
    ClearTabs(TabulationClearMode),
    /// `Handler::reset_state`
    ResetState,
    /// `Handler::reverse_index`
    ReverseIndex,
    /// `Handler::terminal_attribute`
    TerminalAttribute(Attr),
    /// `Handler::set_mode`
    SetMode(Mode),
    /// `Handler::unset_mode`
    UnsetMode(Mode),
    /// `Handler::set_scrolling_region`
    SetScrollingRegion(usize, Option<usize>),
    /// `Handler::set_keypad_application_mode`
    SetKeypadApplicationMode,
    /// `Handler::unset_keypad_application_mode`
    UnsetKeypadApplicationMode,
    /// `Handler::set_active_charset`
    SetActiveCharset(CharsetIndex),
    /// `Handler::configure_charset`
    ConfigureCharset(CharsetIndex, StandardCharset),
    /// `Handler::set_color`
    SetColor(usize, Rgb),
    /// `Handler::reset_color`
    ResetColor(usize),
    /// `Handler::decaln`
    Decaln,
    /// `Handler::push_title`
    PushTitle,
    /// `Handler::pop_title`
    PopTitle,
    /// `Handler::new_cmd`
    NewCmd(String),
    /// `Handler::start_prompt`
    StartPrompt,
    /// `Handler::end_prompt`
    EndPrompt,
    /// `Handler::pre_exec`
    PreExec,
    /// `Handler::dir`
    Dir(String),
    /// `Handler::shell_path`
    ShellPath(String),
    /// `Handler::wsl_distro`
    WslDistro(String),
    /// `Handler::exit_code`
    ExitCode(i32),
    /// `Handler::shell`
    Shell(String),
    /// `Handler::fish_suggestion_color`
    FishSuggestionColor(String),
    /// `Handler::zsh_suggestion_color`
    ZshSuggestionColor(String),
    /// `Handler::fig_suggestion_color`
    FigSuggestionColor(String),
    /// `Handler::nu_hint_color`
    NuHintColor(String),
    /// `Handler::tty`
    Tty(String),
    /// `Handler::pid`
    Pid(i32),
    /// `Handler::username`
    Username(String),
    /// `Handler::log`
    Log(String),
    /// `Handler::osc_lock`
    OscLock(String),
    /// `Handler::osc_unlock`
    OscUnlock(String),
    /// `Handler::unhandled_execute`
    UnhandledExecute(u8),
    /// `Handler::unhandled_hook`
    UnhandledHook(ParamList, Vec<u8>, bool, char),
    /// `Handler::unhandled_put`
    UnhandledPut(u8),
    /// `Handler::unhandled_unhook`
    UnhandledUnhook,
    /// `Handler::unhandled_osc_dispatch`
    UnhandledOscDispatch(Vec<Vec<u8>>, bool),
    /// `Handler::unhandled_csi_dispatch`
    UnhandledCsiDispatch(ParamList, Vec<u8>, bool, char),
    /// `Handler::unhandled_esc_dispatch`
    UnhandledEscDispatch(Vec<u8>, bool, u8),
}

/// An [`Action`] with its arguments as mathematical values.
#[verifier::ext_equal]
pub enum ActionView {
    SetTitle(Option<Seq<char>>),
    SetCursorStyle(Option<CursorStyle>),
    SetCursorShape(CursorShape),
    Input(char),
    Goto(Line, Column),
    GotoLine(Line),
    GotoCol(Column),
    InsertBlank(usize),
    MoveUp(usize),
    MoveDown(usize),
    MoveForward(Column),
    MoveBackward(Column),
    MoveDownAndCr(usize),
    MoveUpAndCr(usize),
    PutTab(u16),
    Backspace,
    CarriageReturn,
    Linefeed,
    Bell,
    Substitute,
    SetHorizontalTabstop,
    ScrollUp(usize),
    ScrollDown(usize),
    InsertBlankLines(usize),
    DeleteLines(usize),
    EraseChars(Column),
    DeleteChars(usize),
    MoveBackwardTabs(u16),
    MoveForwardTabs(u16),
    SaveCursorPosition,
    RestoreCursorPosition,
    ClearLine(LineClearMode),
    ClearScreen(ClearMode),
    ClearTabs(TabulationClearMode),
    ResetState,
    ReverseIndex,
    TerminalAttribute(Attr),
    SetMode(Mode),
    UnsetMode(Mode),
    SetScrollingRegion(usize, Option<usize>),
    SetKeypadApplicationMode,
    UnsetKeypadApplicationMode,
    SetActiveCharset(CharsetIndex),
    ConfigureCharset(CharsetIndex, StandardCharset),
    SetColor(usize, Rgb),
    ResetColor(usize),
    Decaln,
    PushTitle,
    PopTitle,
    NewCmd(Seq<char>),
    StartPrompt,
    EndPrompt,
    PreExec,
    Dir(Seq<char>),
    ShellPath(Seq<char>),
    WslDistro(Seq<char>),
    ExitCode(i32),
    Shell(Seq<char>),
    FishSuggestionColor(Seq<char>),
    ZshSuggestionColor(Seq<char>),
    FigSuggestionColor(Seq<char>),
    NuHintColor(Seq<char>),
    Tty(Seq<char>),
    Pid(i32),
    Username(Seq<char>),
    Log(Seq<char>),
    OscLock(Seq<char>),
    OscUnlock(Seq<char>),
    UnhandledExecute(u8),
    UnhandledHook(Seq<Seq<u16>>, Seq<u8>, bool, char),
    UnhandledPut(u8),
    UnhandledUnhook,
    UnhandledOscDispatch(Seq<Seq<u8>>, bool),
    UnhandledCsiDispatch(Seq<Seq<u16>>, Seq<u8>, bool, char),
    UnhandledEscDispatch(Seq<u8>, bool, u8),
}

/// What a text holds, where there is one.
pub open spec fn text_view(text: Option<String>) -> Option<Seq<char>> {
    match text {
        Some(text) => Some(text@),
        None => None,
    }
}

impl View for Action {
    type V = ActionView;

    open spec fn view(&self) -> ActionView {
        match *self {
            Action::SetTitle(title) => ActionView::SetTitle(text_view(title)),
            Action::SetCursorStyle(style) => ActionView::SetCursorStyle(style),
            Action::SetCursorShape(shape) => ActionView::SetCursorShape(shape),
            Action::Input(c) => ActionView::Input(c),
            Action::Goto(line, column) => ActionView::Goto(line, column),
            Action::GotoLine(line) => ActionView::GotoLine(line),
            Action::GotoCol(column) => ActionView::GotoCol(column),
            Action::InsertBlank(count) => ActionView::InsertBlank(count),
            Action::MoveUp(rows) => ActionView::MoveUp(rows),
            Action::MoveDown(rows) => ActionView::MoveDown(rows),
            Action::MoveForward(cols) => ActionView::MoveForward(cols),
            Action::MoveBackward(cols) => ActionView::MoveBackward(cols),
            Action::MoveDownAndCr(rows) => ActionView::MoveDownAndCr(rows),
            Action::MoveUpAndCr(rows) => ActionView::MoveUpAndCr(rows),
            Action::PutTab(count) => ActionView::PutTab(count),
            Action::Backspace => ActionView::Backspace,
            Action::CarriageReturn => ActionView::CarriageReturn,
            Action::Linefeed => ActionView::Linefeed,
            Action::Bell => ActionView::Bell,
            Action::Substitute => ActionView::Substitute,
            Action::SetHorizontalTabstop => ActionView::SetHorizontalTabstop,
            Action::ScrollUp(rows) => ActionView::ScrollUp(rows),
            Action::ScrollDown(rows) => ActionView::ScrollDown(rows),
            Action::InsertBlankLines(count) => ActionView::InsertBlankLines(count),
            Action::DeleteLines(count) => ActionView::DeleteLines(count),
            Action::EraseChars(count) => ActionView::EraseChars(count),
            Action::DeleteChars(count) => ActionView::DeleteChars(count),
            Action::MoveBackwardTabs(count) => ActionView::MoveBackwardTabs(count),
            Action::MoveForwardTabs(count) => ActionView::MoveForwardTabs(count),
            Action::SaveCursorPosition => ActionView::SaveCursorPosition,
            Action::RestoreCursorPosition => ActionView::RestoreCursorPosition,
            Action::ClearLine(mode) => ActionView::ClearLine(mode),
            Action::ClearScreen(mode) => ActionView::ClearScreen(mode),
            Action::ClearTabs(mode) => ActionView::ClearTabs(mode),
            Action::ResetState => ActionView::ResetState,
            Action::ReverseIndex => ActionView::ReverseIndex,
            Action::TerminalAttribute(attr) => ActionView::TerminalAttribute(attr),
            Action::SetMode(mode) => ActionView::SetMode(mode),
            Action::UnsetMode(mode) => ActionView::UnsetMode(mode),
            Action::SetScrollingRegion(top, bottom) => ActionView::SetScrollingRegion(top, bottom),
            Action::SetKeypadApplicationMode => ActionView::SetKeypadApplicationMode,
            Action::UnsetKeypadApplicationMode => ActionView::UnsetKeypadApplicationMode,
            Action::SetActiveCharset(index) => ActionView::SetActiveCharset(index),
            Action::ConfigureCharset(index, charset) => ActionView::ConfigureCharset(
                index,
                charset,
            ),
            Action::SetColor(index, color) => ActionView::SetColor(index, color),
            Action::ResetColor(index) => ActionView::ResetColor(index),
            Action::Decaln => ActionView::Decaln,
            Action::PushTitle => ActionView::PushTitle,
            Action::PopTitle => ActionView::PopTitle,
            Action::NewCmd(command) => ActionView::NewCmd(command@),
            Action::StartPrompt => ActionView::StartPrompt,
            Action::EndPrompt => ActionView::EndPrompt,
            Action::PreExec => ActionView::PreExec,
            Action::Dir(path) => ActionView::Dir(path@),
            Action::ShellPath(path) => ActionView::ShellPath(path@),
            Action::WslDistro(distro) => ActionView::WslDistro(distro@),
            Action::ExitCode(code) => ActionView::ExitCode(code),
            Action::Shell(shell) => ActionView::Shell(shell@),
            Action::FishSuggestionColor(color) => ActionView::FishSuggestionColor(color@),
            Action::ZshSuggestionColor(color) => ActionView::ZshSuggestionColor(color@),
            Action::FigSuggestionColor(color) => ActionView::FigSuggestionColor(color@),
            Action::NuHintColor(color) => ActionView::NuHintColor(color@),
            Action::Tty(tty) => ActionView::Tty(tty@),
            Action::Pid(pid) => ActionView::Pid(pid),
            Action::Username(name) => ActionView::Username(name@),
            Action::Log(level) => ActionView::Log(level@),
            Action::OscLock(session) => ActionView::OscLock(session@),
            Action::OscUnlock(session) => ActionView::OscUnlock(session@),
            Action::UnhandledExecute(byte) => ActionView::UnhandledExecute(byte),
            Action::UnhandledHook(params, intermediates, ignore, action) => ActionView::UnhandledHook(
                params@,
                intermediates@,
                ignore,
                action,
            ),
            Action::UnhandledPut(byte) => ActionView::UnhandledPut(byte),
            Action::UnhandledUnhook => ActionView::UnhandledUnhook,
            Action::UnhandledOscDispatch(params, bell_terminated) => ActionView::UnhandledOscDispatch(
                vec_views(params@),
                bell_terminated,
            ),
            Action::UnhandledCsiDispatch(params, intermediates, ignore, action) => ActionView::UnhandledCsiDispatch(
                params@,
                intermediates@,
                ignore,
                action,
            ),
            Action::UnhandledEscDispatch(intermediates, ignore, byte) => ActionView::UnhandledEscDispatch(
                intermediates@,
                ignore,
                byte,
            ),
        }
    }
}

/// What a list of actions holds.
pub open spec fn action_views(actions: Seq<Action>) -> Seq<ActionView> {
    actions.map_values(|action: Action| action@)
}

/// Whether the call behind the reference `call` was the call of the handler's method for
/// `action`, with the arguments of `action`.
pub open spec fn received<H: Handler>(call: &mut H, action: ActionView) -> bool {
    match action {
        ActionView::SetTitle(title) => exists|given_title: Option<String>|
            text_view(given_title) == title
                && #[trigger] call_ensures(H::set_title, (call, given_title), ()),
        ActionView::SetCursorStyle(style) => call_ensures(H::set_cursor_style, (call, style), ()),
        ActionView::SetCursorShape(shape) => call_ensures(H::set_cursor_shape, (call, shape), ()),
        ActionView::Input(c) => call_ensures(H::input, (call, c), ()),
        ActionView::Goto(line, column) => call_ensures(H::goto, (call, line, column), ()),
        ActionView::GotoLine(line) => call_ensures(H::goto_line, (call, line), ()),
        ActionView::GotoCol(column) => call_ensures(H::goto_col, (call, column), ()),
        ActionView::InsertBlank(count) => call_ensures(H::insert_blank, (call, count), ()),
        ActionView::MoveUp(rows) => call_ensures(H::move_up, (call, rows), ()),
        ActionView::MoveDown(rows) => call_ensures(H::move_down, (call, rows), ()),
        ActionView::MoveForward(cols) => call_ensures(H::move_forward, (call, cols), ()),
        ActionView::MoveBackward(cols) => call_ensures(H::move_backward, (call, cols), ()),
        ActionView::MoveDownAndCr(rows) => call_ensures(H::move_down_and_cr, (call, rows), ()),
        ActionView::MoveUpAndCr(rows) => call_ensures(H::move_up_and_cr, (call, rows), ()),
        ActionView::PutTab(count) => call_ensures(H::put_tab, (call, count), ()),
        ActionView::Backspace => call_ensures(H::backspace, (call,), ()),
        ActionView::CarriageReturn => call_ensures(H::carriage_return, (call,), ()),
        ActionView::Linefeed => call_ensures(H::linefeed, (call,), ()),
        ActionView::Bell => call_ensures(H::bell, (call,), ()),
        ActionView::Substitute => call_ensures(H::substitute, (call,), ()),
        ActionView::SetHorizontalTabstop => call_ensures(H::set_horizontal_tabstop, (call,), ()),
        ActionView::ScrollUp(rows) => call_ensures(H::scroll_up, (call, rows), ()),
        ActionView::ScrollDown(rows) => call_ensures(H::scroll_down, (call, rows), ()),
        ActionView::InsertBlankLines(count) => call_ensures(
            H::insert_blank_lines,
            (call, count),
            (),
        ),
        ActionView::DeleteLines(count) => call_ensures(H::delete_lines, (call, count), ()),
        ActionView::EraseChars(count) => call_ensures(H::erase_chars, (call, count), ()),
        ActionView::DeleteChars(count) => call_ensures(H::delete_chars, (call, count), ()),
        ActionView::MoveBackwardTabs(count) => call_ensures(
            H::move_backward_tabs,
            (call, count),
            (),
        ),
        ActionView::MoveForwardTabs(count) => call_ensures(H::move_forward_tabs, (call, count), ()),
        ActionView::SaveCursorPosition => call_ensures(H::save_cursor_position, (call,), ()),
        ActionView::RestoreCursorPosition => call_ensures(H::restore_cursor_position, (call,), ()),
        ActionView::ClearLine(mode) => call_ensures(H::clear_line, (call, mode), ()),
        ActionView::ClearScreen(mode) => call_ensures(H::clear_screen, (call, mode), ()),
        ActionView::ClearTabs(mode) => call_ensures(H::clear_tabs, (call, mode), ()),
        ActionView::ResetState => call_ensures(H::reset_state, (call,), ()),
        ActionView::ReverseIndex => call_ensures(H::reverse_index, (call,), ()),
        ActionView::TerminalAttribute(attr) => call_ensures(
            H::terminal_attribute,
            (call, attr),
            (),
        ),
        ActionView::SetMode(mode) => call_ensures(H::set_mode, (call, mode), ()),
        ActionView::UnsetMode(mode) => call_ensures(H::unset_mode, (call, mode), ()),
        ActionView::SetScrollingRegion(top, bottom) => call_ensures(
            H::set_scrolling_region,
            (call, top, bottom),
            (),
        ),
        ActionView::SetKeypadApplicationMode => call_ensures(
            H::set_keypad_application_mode,
            (call,),
            (),
        ),
        ActionView::UnsetKeypadApplicationMode => call_ensures(
            H::unset_keypad_application_mode,
            (call,),
            (),
        ),
        ActionView::SetActiveCharset(index) => call_ensures(
            H::set_active_charset,
            (call, index),
            (),
        ),
        ActionView::ConfigureCharset(index, charset) => call_ensures(
            H::configure_charset,
            (call, index, charset),
            (),
        ),
        ActionView::SetColor(index, color) => call_ensures(H::set_color, (call, index, color), ()),
        ActionView::ResetColor(index) => call_ensures(H::reset_color, (call, index), ()),
        ActionView::Decaln => call_ensures(H::decaln, (call,), ()),
        ActionView::PushTitle => call_ensures(H::push_title, (call,), ()),
        ActionView::PopTitle => call_ensures(H::pop_title, (call,), ()),
        ActionView::NewCmd(command) => exists|given_command: &str|
            given_command@ == command
                && #[trigger] call_ensures(H::new_cmd, (call, given_command), ()),
        ActionView::StartPrompt => call_ensures(H::start_prompt, (call,), ()),
        ActionView::EndPrompt => call_ensures(H::end_prompt, (call,), ()),
        ActionView::PreExec => call_ensures(H::pre_exec, (call,), ()),
        ActionView::Dir(path) => exists|given_path: &str|
            given_path@ == path && #[trigger] call_ensures(H::dir, (call, given_path), ()),
        ActionView::ShellPath(path) => exists|given_path: &str|
            given_path@ == path && #[trigger] call_ensures(H::shell_path, (call, given_path), ()),
        ActionView::WslDistro(distro) => exists|given_distro: &str|
            given_distro@ == distro
                && #[trigger] call_ensures(H::wsl_distro, (call, given_distro), ()),
        ActionView::ExitCode(code) => call_ensures(H::exit_code, (call, code), ()),
        ActionView::Shell(shell) => exists|given_shell: &str|
            given_shell@ == shell && #[trigger] call_ensures(H::shell, (call, given_shell), ()),
        ActionView::FishSuggestionColor(color) => exists|given_color: &str|
            given_color@ == color
                && #[trigger] call_ensures(H::fish_suggestion_color, (call, given_color), ()),
        ActionView::ZshSuggestionColor(color) => exists|given_color: &str|
            given_color@ == color
                && #[trigger] call_ensures(H::zsh_suggestion_color, (call, given_color), ()),
        ActionView::FigSuggestionColor(color) => exists|given_color: &str|
            given_color@ == color
                && #[trigger] call_ensures(H::fig_suggestion_color, (call, given_color), ()),
        ActionView::NuHintColor(color) => exists|given_color: &str|
            given_color@ == color
                && #[trigger] call_ensures(H::nu_hint_color, (call, given_color), ()),
        ActionView::Tty(tty) => exists|given_tty: &str|
            given_tty@ == tty && #[trigger] call_ensures(H::tty, (call, given_tty), ()),
        ActionView::Pid(pid) => call_ensures(H::pid, (call, pid), ()),
        ActionView::Username(name) => exists|given_name: &str|
            given_name@ == name && #[trigger] call_ensures(H::username, (call, given_name), ()),
        ActionView::Log(level) => exists|given_level: &str|
            given_level@ == level && #[trigger] call_ensures(H::log, (call, given_level), ()),
        ActionView::OscLock(session) => exists|given_session: &str|
            given_session@ == session
                && #[trigger] call_ensures(H::osc_lock, (call, given_session), ()),
        ActionView::OscUnlock(session) => exists|given_session: &str|
            given_session@ == session
                && #[trigger] call_ensures(H::osc_unlock, (call, given_session), ()),
        ActionView::UnhandledExecute(byte) => exists|status: HandledStatus|
            #[trigger] call_ensures(H::unhandled_execute, (call, byte), status),
        ActionView::UnhandledHook(params, intermediates, ignore, action) =>
            exists|given_params: &ParamList, given_intermediates: &[u8], status: HandledStatus|
            given_params@ == params
                && given_intermediates@ == intermediates
                && #[trigger] call_ensures(
                    H::unhandled_hook,
                    (call, given_params, given_intermediates, ignore, action),
                    status,
                ),
        ActionView::UnhandledPut(byte) => exists|status: HandledStatus|
            #[trigger] call_ensures(H::unhandled_put, (call, byte), status),
        ActionView::UnhandledUnhook => exists|status: HandledStatus|
            #[trigger] call_ensures(H::unhandled_unhook, (call,), status),
        ActionView::UnhandledOscDispatch(params, bell_terminated) =>
            exists|given_params: &[&[u8]], status: HandledStatus|
            slice_views(given_params@) == params
                && #[trigger] call_ensures(
                    H::unhandled_osc_dispatch,
                    (call, given_params, bell_terminated),
                    status,
                ),
        ActionView::UnhandledCsiDispatch(params, intermediates, ignore, action) =>
            exists|given_params: &ParamList, given_intermediates: &[u8], status: HandledStatus|
            given_params@ == params
                && given_intermediates@ == intermediates
                && #[trigger] call_ensures(
                    H::unhandled_csi_dispatch,
                    (call, given_params, given_intermediates, ignore, action),
                    status,
                ),
        ActionView::UnhandledEscDispatch(intermediates, ignore, byte) =>
            exists|given_intermediates: &[u8], status: HandledStatus|
            given_intermediates@ == intermediates
                && #[trigger] call_ensures(
                    H::unhandled_esc_dispatch,
                    (call, given_intermediates, ignore, byte),
                    status,
                ),
    }
}

/// A list of one action.
pub fn single(action: Action) -> (actions: Vec<Action>)
    ensures
        action_views(actions@) == seq![action@],
{
    let mut actions: Vec<Action> = Vec::new();
    actions.push(action);
    assert(action_views(actions@) =~= seq![action@]);
    actions
}

/// The state of a handler before the call number `i` of a run of calls that began in the
/// state `pre` and whose calls left the handler in the states `run`.
pub open spec fn state_before<H>(pre: H, run: Seq<H>, i: int) -> H {
    if i == 0 {
        pre
    } else {
        run[i - 1]
    }
}

/// Whether a handler in the state `pre` received exactly the calls for `actions`, in their
/// order, and came to the state `post`: `calls` are the references through which it was
/// called, and `run` are the states that the calls are taken to leave it in.
pub open spec fn performed<H: Handler>(
    pre: H,
    calls: Seq<&mut H>,
    run: Seq<H>,
    actions: Seq<ActionView>,
    post: H,
) -> bool {
    &&& calls.len() == actions.len()
    &&& run.len() == actions.len()
    &&& post == state_before(pre, run, run.len() as int)
    &&& forall|i: int|
        0 <= i < actions.len() ==> {
            &&& *(#[trigger] calls[i]) == state_before(pre, run, i)
            &&& received(calls[i], actions[i])
        }
}

/// A handler that received one run of calls and then another one received both, one behind
/// the other.
pub proof fn lemma_performed_concat<H: Handler>(
    pre: H,
    calls1: Seq<&mut H>,
    run1: Seq<H>,
    actions1: Seq<ActionView>,
    mid: H,
    calls2: Seq<&mut H>,
    run2: Seq<H>,
    actions2: Seq<ActionView>,
    post: H,
)
    requires
        performed(pre, calls1, run1, actions1, mid),
        performed(mid, calls2, run2, actions2, post),
    ensures
        performed(pre, calls1 + calls2, run1 + run2, actions1 + actions2, post),
{
}

/// Every call of a method of a handler is the call for the action that stands for it.
pub proof fn law_calls_are_received_as_their_actions<H: Handler>()
    ensures
        forall|call: &mut H, title: Option<String>| #[trigger]
            call_ensures(H::set_title, (call, title), ())
                ==> received(call, ActionView::SetTitle(text_view(title))),
        forall|call: &mut H, style: Option<CursorStyle>| #[trigger]
            call_ensures(H::set_cursor_style, (call, style), ())
                ==> received(call, ActionView::SetCursorStyle(style)),
        forall|call: &mut H, shape: CursorShape| #[trigger]
            call_ensures(H::set_cursor_shape, (call, shape), ())
                ==> received(call, ActionView::SetCursorShape(shape)),
        forall|call: &mut H, c: char| #[trigger]
            call_ensures(H::input, (call, c), ())
                ==> received(call, ActionView::Input(c)),
        forall|call: &mut H, line: Line, column: Column| #[trigger]
            call_ensures(H::goto, (call, line, column), ())
                ==> received(call, ActionView::Goto(line, column)),
        forall|call: &mut H, line: Line| #[trigger]
            call_ensures(H::goto_line, (call, line), ())
                ==> received(call, ActionView::GotoLine(line)),
        forall|call: &mut H, column: Column| #[trigger]
            call_ensures(H::goto_col, (call, column), ())
                ==> received(call, ActionView::GotoCol(column)),
        forall|call: &mut H, count: usize| #[trigger]
            call_ensures(H::insert_blank, (call, count), ())
                ==> received(call, ActionView::InsertBlank(count)),
        forall|call: &mut H, rows: usize| #[trigger]
            call_ensures(H::move_up, (call, rows), ())
                ==> received(call, ActionView::MoveUp(rows)),
        forall|call: &mut H, rows: usize| #[trigger]
            call_ensures(H::move_down, (call, rows), ())
                ==> received(call, ActionView::MoveDown(rows)),
        forall|call: &mut H, cols: Column| #[trigger]
            call_ensures(H::move_forward, (call, cols), ())
                ==> received(call, ActionView::MoveForward(cols)),
        forall|call: &mut H, cols: Column| #[trigger]
            call_ensures(H::move_backward, (call, cols), ())
                ==> received(call, ActionView::MoveBackward(cols)),
        forall|call: &mut H, rows: usize| #[trigger]
            call_ensures(H::move_down_and_cr, (call, rows), ())
                ==> received(call, ActionView::MoveDownAndCr(rows)),
        forall|call: &mut H, rows: usize| #[trigger]
            call_ensures(H::move_up_and_cr, (call, rows), ())
                ==> received(call, ActionView::MoveUpAndCr(rows)),
        forall|call: &mut H, count: u16| #[trigger]
            call_ensures(H::put_tab, (call, count), ())
                ==> received(call, ActionView::PutTab(count)),
        forall|call: &mut H| #[trigger]
            call_ensures(H::backspace, (call,), ())
                ==> received(call, ActionView::Backspace),
        forall|call: &mut H| #[trigger]
            call_ensures(H::carriage_return, (call,), ())
                ==> received(call, ActionView::CarriageReturn),
        forall|call: &mut H| #[trigger]
            call_ensures(H::linefeed, (call,), ())
                ==> received(call, ActionView::Linefeed),
        forall|call: &mut H| #[trigger]
            call_ensures(H::bell, (call,), ())
                ==> received(call, ActionView::Bell),
        forall|call: &mut H| #[trigger]
            call_ensures(H::substitute, (call,), ())
                ==> received(call, ActionView::Substitute),
        forall|call: &mut H| #[trigger]
            call_ensures(H::set_horizontal_tabstop, (call,), ())
                ==> received(call, ActionView::SetHorizontalTabstop),
        forall|call: &mut H, rows: usize| #[trigger]
            call_ensures(H::scroll_up, (call, rows), ())
                ==> received(call, ActionView::ScrollUp(rows)),
        forall|call: &mut H, rows: usize| #[trigger]
            call_ensures(H::scroll_down, (call, rows), ())
                ==> received(call, ActionView::ScrollDown(rows)),
        forall|call: &mut H, count: usize| #[trigger]
            call_ensures(H::insert_blank_lines, (call, count), ())
                ==> received(call, ActionView::InsertBlankLines(count)),
        forall|call: &mut H, count: usize| #[trigger]
            call_ensures(H::delete_lines, (call, count), ())
                ==> received(call, ActionView::DeleteLines(count)),
        forall|call: &mut H, count: Column| #[trigger]
            call_ensures(H::erase_chars, (call, count), ())
                ==> received(call, ActionView::EraseChars(count)),
        forall|call: &mut H, count: usize| #[trigger]
            call_ensures(H::delete_chars, (call, count), ())
                ==> received(call, ActionView::DeleteChars(count)),
        forall|call: &mut H, count: u16| #[trigger]
            call_ensures(H::move_backward_tabs, (call, count), ())
                ==> received(call, ActionView::MoveBackwardTabs(count)),
        forall|call: &mut H, count: u16| #[trigger]
            call_ensures(H::move_forward_tabs, (call, count), ())
                ==> received(call, ActionView::MoveForwardTabs(count)),
        forall|call: &mut H| #[trigger]
            call_ensures(H::save_cursor_position, (call,), ())
                ==> received(call, ActionView::SaveCursorPosition),
        forall|call: &mut H| #[trigger]
            call_ensures(H::restore_cursor_position, (call,), ())
                ==> received(call, ActionView::RestoreCursorPosition),
        forall|call: &mut H, mode: LineClearMode| #[trigger]
            call_ensures(H::clear_line, (call, mode), ())
                ==> received(call, ActionView::ClearLine(mode)),
        forall|call: &mut H, mode: ClearMode| #[trigger]
            call_ensures(H::clear_screen, (call, mode), ())
                ==> received(call, ActionView::ClearScreen(mode)),
        forall|call: &mut H, mode: TabulationClearMode| #[trigger]
            call_ensures(H::clear_tabs, (call, mode), ())
                ==> received(call, ActionView::ClearTabs(mode)),
        forall|call: &mut H| #[trigger]
            call_ensures(H::reset_state, (call,), ())
                ==> received(call, ActionView::ResetState),
        forall|call: &mut H| #[trigger]
            call_ensures(H::reverse_index, (call,), ())
                ==> received(call, ActionView::ReverseIndex),
        forall|call: &mut H, attr: Attr| #[trigger]
            call_ensures(H::terminal_attribute, (call, attr), ())
                ==> received(call, ActionView::TerminalAttribute(attr)),
        forall|call: &mut H, mode: Mode| #[trigger]
            call_ensures(H::set_mode, (call, mode), ())
                ==> received(call, ActionView::SetMode(mode)),
        forall|call: &mut H, mode: Mode| #[trigger]
            call_ensures(H::unset_mode, (call, mode), ())
                ==> received(call, ActionView::UnsetMode(mode)),
        forall|call: &mut H, top: usize, bottom: Option<usize>| #[trigger]
            call_ensures(H::set_scrolling_region, (call, top, bottom), ())
                ==> received(call, ActionView::SetScrollingRegion(top, bottom)),
        forall|call: &mut H| #[trigger]
            call_ensures(H::set_keypad_application_mode, (call,), ())
                ==> received(call, ActionView::SetKeypadApplicationMode),
        forall|call: &mut H| #[trigger]
            call_ensures(H::unset_keypad_application_mode, (call,), ())
                ==> received(call, ActionView::UnsetKeypadApplicationMode),
        forall|call: &mut H, index: CharsetIndex| #[trigger]
            call_ensures(H::set_active_charset, (call, index), ())
                ==> received(call, ActionView::SetActiveCharset(index)),
        forall|call: &mut H, index: CharsetIndex, charset: StandardCharset| #[trigger]
            call_ensures(H::configure_charset, (call, index, charset), ())
                ==> received(call, ActionView::ConfigureCharset(index, charset)),
        forall|call: &mut H, index: usize, color: Rgb| #[trigger]
            call_ensures(H::set_color, (call, index, color), ())
                ==> received(call, ActionView::SetColor(index, color)),
        forall|call: &mut H, index: usize| #[trigger]
            call_ensures(H::reset_color, (call, index), ())
                ==> received(call, ActionView::ResetColor(index)),
        forall|call: &mut H| #[trigger]
            call_ensures(H::decaln, (call,), ())
                ==> received(call, ActionView::Decaln),
        forall|call: &mut H| #[trigger]
            call_ensures(H::push_title, (call,), ())
                ==> received(call, ActionView::PushTitle),
        forall|call: &mut H| #[trigger]
            call_ensures(H::pop_title, (call,), ())
                ==> received(call, ActionView::PopTitle),
        forall|call: &mut H, command: &str| #[trigger]
            call_ensures(H::new_cmd, (call, command), ())
                ==> received(call, ActionView::NewCmd(command@)),
        forall|call: &mut H| #[trigger]
            call_ensures(H::start_prompt, (call,), ())
                ==> received(call, ActionView::StartPrompt),
        forall|call: &mut H| #[trigger]
            call_ensures(H::end_prompt, (call,), ())
                ==> received(call, ActionView::EndPrompt),
        forall|call: &mut H| #[trigger]
            call_ensures(H::pre_exec, (call,), ())
                ==> received(call, ActionView::PreExec),
        forall|call: &mut H, path: &str| #[trigger]
            call_ensures(H::dir, (call, path), ())
                ==> received(call, ActionView::Dir(path@)),
        forall|call: &mut H, path: &str| #[trigger]
            call_ensures(H::shell_path, (call, path), ())
                ==> received(call, ActionView::ShellPath(path@)),
        forall|call: &mut H, distro: &str| #[trigger]
            call_ensures(H::wsl_distro, (call, distro), ())
                ==> received(call, ActionView::WslDistro(distro@)),
        forall|call: &mut H, code: i32| #[trigger]
            call_ensures(H::exit_code, (call, code), ())
                ==> received(call, ActionView::ExitCode(code)),
        forall|call: &mut H, shell: &str| #[trigger]
            call_ensures(H::shell, (call, shell), ())
                ==> received(call, ActionView::Shell(shell@)),
        forall|call: &mut H, color: &str| #[trigger]
            call_ensures(H::fish_suggestion_color, (call, color), ())
                ==> received(call, ActionView::FishSuggestionColor(color@)),
        forall|call: &mut H, color: &str| #[trigger]
            call_ensures(H::zsh_suggestion_color, (call, color), ())
                ==> received(call, ActionView::ZshSuggestionColor(color@)),
        forall|call: &mut H, color: &str| #[trigger]
            call_ensures(H::fig_suggestion_color, (call, color), ())
                ==> received(call, ActionView::FigSuggestionColor(color@)),
        forall|call: &mut H, color: &str| #[trigger]
            call_ensures(H::nu_hint_color, (call, color), ())
                ==> received(call, ActionView::NuHintColor(color@)),
        forall|call: &mut H, tty: &str| #[trigger]
            call_ensures(H::tty, (call, tty), ())
                ==> received(call, ActionView::Tty(tty@)),
        forall|call: &mut H, pid: i32| #[trigger]
            call_ensures(H::pid, (call, pid), ())
                ==> received(call, ActionView::Pid(pid)),
        forall|call: &mut H, name: &str| #[trigger]
            call_ensures(H::username, (call, name), ())
                ==> received(call, ActionView::Username(name@)),
        forall|call: &mut H, level: &str| #[trigger]
            call_ensures(H::log, (call, level), ())
                ==> received(call, ActionView::Log(level@)),
        forall|call: &mut H, session: &str| #[trigger]
            call_ensures(H::osc_lock, (call, session), ())
                ==> received(call, ActionView::OscLock(session@)),
        forall|call: &mut H, session: &str| #[trigger]
            call_ensures(H::osc_unlock, (call, session), ())
                ==> received(call, ActionView::OscUnlock(session@)),
        forall|call: &mut H, byte: u8, status: HandledStatus| #[trigger]
            call_ensures(H::unhandled_execute, (call, byte), status)
                ==> received(call, ActionView::UnhandledExecute(byte)),
        forall|
            call: &mut H,
            params: &ParamList,
            intermediates: &[u8],
            ignore: bool,
            action: char,
            status: HandledStatus,
        | #[trigger]
            call_ensures(H::unhandled_hook, (call, params, intermediates, ignore, action), status)
                ==> received(
                    call,
                    ActionView::UnhandledHook(params@, intermediates@, ignore, action),
                ),
        forall|call: &mut H, byte: u8, status: HandledStatus| #[trigger]
            call_ensures(H::unhandled_put, (call, byte), status)
                ==> received(call, ActionView::UnhandledPut(byte)),
        forall|call: &mut H, status: HandledStatus| #[trigger]
            call_ensures(H::unhandled_unhook, (call,), status)
                ==> received(call, ActionView::UnhandledUnhook),
        forall|
            call: &mut H,
            params: &[&[u8]],
            bell_terminated: bool,
            status: HandledStatus,
        | #[trigger]
            call_ensures(H::unhandled_osc_dispatch, (call, params, bell_terminated), status)
                ==> received(
                    call,
                    ActionView::UnhandledOscDispatch(slice_views(params@), bell_terminated),
                ),
        forall|
            call: &mut H,
            params: &ParamList,
            intermediates: &[u8],
            ignore: bool,
            action: char,
            status: HandledStatus,
        | #[trigger]
            call_ensures(H::unhandled_csi_dispatch, (call, params, intermediates, ignore, action), status)
                ==> received(
                    call,
                    ActionView::UnhandledCsiDispatch(params@, intermediates@, ignore, action),
                ),
        forall|
            call: &mut H,
            intermediates: &[u8],
            ignore: bool,
            byte: u8,
            status: HandledStatus,
        | #[trigger]
            call_ensures(H::unhandled_esc_dispatch, (call, intermediates, ignore, byte), status)
                ==> received(call, ActionView::UnhandledEscDispatch(intermediates@, ignore, byte)),
{
}

impl Action {
    /// Calls the method of the handler that the action stands for.
    pub fn perform<H: Handler>(&self, handler: &mut H)
        ensures
            exists|call: &mut H| *call == *old(handler) && *final(call) == *final(handler)
                && #[trigger] received(call, self@),
    {
        // The action that the calls below are held against.
        let ghost action = self@;
        proof {
            law_calls_are_received_as_their_actions::<H>();
        }
        match self {
            Action::SetTitle(title) => {
                let given: Option<String> = match title {
                    Some(text) => Some(text.clone()),
                    None => None,
                };
                handler.set_title(given);
            },
            Action::SetCursorStyle(style) => {
                handler.set_cursor_style(*style);
            },
            Action::SetCursorShape(shape) => {
                handler.set_cursor_shape(*shape);
            },
            Action::Input(c) => {
                handler.input(*c);
            },
            Action::Goto(line, column) => {
                handler.goto(*line, *column);
            },
            Action::GotoLine(line) => {
                handler.goto_line(*line);
            },
            Action::GotoCol(column) => {
                handler.goto_col(*column);
            },
            Action::InsertBlank(count) => {
                handler.insert_blank(*count);
            },
            Action::MoveUp(rows) => {
                handler.move_up(*rows);
            },
            Action::MoveDown(rows) => {
                handler.move_down(*rows);
            },
            Action::MoveForward(cols) => {
                handler.move_forward(*cols);
            },
            Action::MoveBackward(cols) => {
                handler.move_backward(*cols);
            },
            Action::MoveDownAndCr(rows) => {
                handler.move_down_and_cr(*rows);
            },
            Action::MoveUpAndCr(rows) => {
                handler.move_up_and_cr(*rows);
            },
            Action::PutTab(count) => {
                handler.put_tab(*count);
            },
            Action::Backspace => {
                handler.backspace();
            },
            Action::CarriageReturn => {
                handler.carriage_return();
            },
            Action::Linefeed => {
                handler.linefeed();
            },
            Action::Bell => {
                handler.bell();
            },
            Action::Substitute => {
                handler.substitute();
            },
            Action::SetHorizontalTabstop => {
                handler.set_horizontal_tabstop();
            },
            Action::ScrollUp(rows) => {
                handler.scroll_up(*rows);
            },
            Action::ScrollDown(rows) => {
                handler.scroll_down(*rows);
            },
            Action::InsertBlankLines(count) => {
                handler.insert_blank_lines(*count);
            },
            Action::DeleteLines(count) => {
                handler.delete_lines(*count);
            },
            Action::EraseChars(count) => {
                handler.erase_chars(*count);
            },
            Action::DeleteChars(count) => {
                handler.delete_chars(*count);
            },
            Action::MoveBackwardTabs(count) => {
                handler.move_backward_tabs(*count);
            },
            Action::MoveForwardTabs(count) => {
                handler.move_forward_tabs(*count);
            },
            Action::SaveCursorPosition => {
                handler.save_cursor_position();
            },
            Action::RestoreCursorPosition => {
                handler.restore_cursor_position();
            },
            Action::ClearLine(mode) => {
                handler.clear_line(*mode);
            },
            Action::ClearScreen(mode) => {
                handler.clear_screen(*mode);
            },
            Action::ClearTabs(mode) => {
                handler.clear_tabs(*mode);
            },
            Action::ResetState => {
                handler.reset_state();
            },
            Action::ReverseIndex => {
                handler.reverse_index();
            },
            Action::TerminalAttribute(attr) => {
                handler.terminal_attribute(*attr);
            },
            Action::SetMode(mode) => {
                handler.set_mode(*mode);
            },
            Action::UnsetMode(mode) => {
                handler.unset_mode(*mode);
            },
            Action::SetScrollingRegion(top, bottom) => {
                handler.set_scrolling_region(*top, *bottom);
            },
            Action::SetKeypadApplicationMode => {
                handler.set_keypad_application_mode();
            },
            Action::UnsetKeypadApplicationMode => {
                handler.unset_keypad_application_mode();
            },
            Action::SetActiveCharset(index) => {
                handler.set_active_charset(*index);
            },
            Action::ConfigureCharset(index, charset) => {
                handler.configure_charset(*index, *charset);
            },
            Action::SetColor(index, color) => {
                handler.set_color(*index, *color);
            },
            Action::ResetColor(index) => {
                handler.reset_color(*index);
            },
            Action::Decaln => {
                handler.decaln();
            },
            Action::PushTitle => {
                handler.push_title();
            },
            Action::PopTitle => {
                handler.pop_title();
            },
            Action::NewCmd(command) => {
                let text: &str = command.as_str();
                handler.new_cmd(text);
            },
            Action::StartPrompt => {
                handler.start_prompt();
            },
            Action::EndPrompt => {
                handler.end_prompt();
            },
            Action::PreExec => {
                handler.pre_exec();
            },
            Action::Dir(path) => {
                let text: &str = path.as_str();
                handler.dir(text);
            },
            Action::ShellPath(path) => {
                let text: &str = path.as_str();
                handler.shell_path(text);
            },
            Action::WslDistro(distro) => {
                let text: &str = distro.as_str();
                handler.wsl_distro(text);
            },
            Action::ExitCode(code) => {
                handler.exit_code(*code);
            },
            Action::Shell(shell) => {
                let text: &str = shell.as_str();
                handler.shell(text);
            },
            Action::FishSuggestionColor(color) => {
                let text: &str = color.as_str();
                handler.fish_suggestion_color(text);
            },
            Action::ZshSuggestionColor(color) => {
                let text: &str = color.as_str();
                handler.zsh_suggestion_color(text);
            },
            Action::FigSuggestionColor(color) => {
                let text: &str = color.as_str();
                handler.fig_suggestion_color(text);
            },
            Action::NuHintColor(color) => {
                let text: &str = color.as_str();
                handler.nu_hint_color(text);
            },
            Action::Tty(tty) => {
                let text: &str = tty.as_str();
                handler.tty(text);
            },
            Action::Pid(pid) => {
                handler.pid(*pid);
            },
            Action::Username(name) => {
                let text: &str = name.as_str();
                handler.username(text);
            },
            Action::Log(level) => {
                let text: &str = level.as_str();
                handler.log(text);
            },
            Action::OscLock(session) => {
                let text: &str = session.as_str();
                handler.osc_lock(text);
            },
            Action::OscUnlock(session) => {
                let text: &str = session.as_str();
                handler.osc_unlock(text);
            },
            Action::UnhandledExecute(byte) => {
                let _status: HandledStatus = handler.unhandled_execute(*byte);
            },
            Action::UnhandledHook(params, intermediates, ignore, action) => {
                let bytes: &[u8] = intermediates.as_slice();
                let _status: HandledStatus = handler.unhandled_hook(
                    params,
                    bytes,
                    *ignore,
                    *action,
                );
            },
            Action::UnhandledPut(byte) => {
                let _status: HandledStatus = handler.unhandled_put(*byte);
            },
            Action::UnhandledUnhook => {
                let _status: HandledStatus = handler.unhandled_unhook();
            },
            Action::UnhandledOscDispatch(params, bell_terminated) => {
                let list: Vec<&[u8]> = as_slices(params);
                let slices: &[&[u8]] = list.as_slice();
                let _status: HandledStatus = handler.unhandled_osc_dispatch(
                    slices,
                    *bell_terminated,
                );
            },
            Action::UnhandledCsiDispatch(params, intermediates, ignore, action) => {
                let bytes: &[u8] = intermediates.as_slice();
                let _status: HandledStatus = handler.unhandled_csi_dispatch(
                    params,
                    bytes,
                    *ignore,
                    *action,
                );
            },
            Action::UnhandledEscDispatch(intermediates, ignore, byte) => {
                let bytes: &[u8] = intermediates.as_slice();
                let _status: HandledStatus = handler.unhandled_esc_dispatch(bytes, *ignore, *byte);
            },
        }
    }
}

/// Calls the methods of the handler that the actions stand for, in their order.
pub fn perform_all<H: Handler>(actions: &Vec<Action>, handler: &mut H)
    ensures
        exists|calls: Seq<&mut H>, run: Seq<H>|
            #[trigger] performed(*old(handler), calls, run, action_views(actions@), *final(handler))
                && forall|i: int| 0 <= i < calls.len() ==> *final(#[trigger] calls[i]) == run[i],
{
    let mut next: usize = 0;
    let ghost mut done: Seq<ActionView> = seq![];
    proof {
        assert(performed(*handler, Seq::<&mut H>::empty(), Seq::<H>::empty(), done, *handler));
    }
    while next < actions.len()
        invariant
            next <= actions.len(),
            done == action_views(actions@).take(next as int),
            exists|calls: Seq<&mut H>, run: Seq<H>|
                #[trigger] performed(*old(handler), calls, run, done, *handler)
                    && forall|i: int| 0 <= i < calls.len() ==> *final(#[trigger] calls[i]) == run[i],
        decreases actions.len() - next,
    {
        let ghost before = *handler;
        let ghost action = actions@[next as int]@;
        let ghost (calls, run) = choose|calls: Seq<&mut H>, run: Seq<H>|
            #[trigger] performed(*old(handler), calls, run, done, before)
                && forall|i: int| 0 <= i < calls.len() ==> *final(#[trigger] calls[i]) == run[i];
        actions[next].perform(handler);
        proof {
            let call = choose|call: &mut H| *call == before && *final(call) == *handler
                && #[trigger] received(call, action);
            assert(performed(before, seq![call], seq![*handler], seq![action], *handler));
            lemma_performed_concat(
                *old(handler), calls, run, done, before,
                seq![call], seq![*handler], seq![action], *handler,
            );
            done = done + seq![action];
            assert(action_views(actions@).take(next + 1) =~= done);
        }
        next += 1;
    }
    assert(action_views(actions@).take(next as int) =~= action_views(actions@));
}

} // verus!
