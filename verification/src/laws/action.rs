//! Laws of actions: which action stands for which call.

use vstd::prelude::*;

use crate::action::{
    action_views, performed, received, state_before, text_view, Action, ActionView,
};
use crate::attr::Attr;
use crate::bytes::{slice_views, vec_views};
use crate::charset::{CharsetIndex, StandardCharset};
use crate::color::Rgb;
use crate::cursor::{CursorShape, CursorStyle};
use crate::event::{event_views, Event, EventView};
use crate::handler::{HandledStatus, Handler};
use crate::index::{Column, Line};
use crate::mode::{ClearMode, LineClearMode, Mode, TabulationClearMode};
use crate::params::{group_views, no_group_empty, ParamList};

verus! {

/// An action that a handler received is a call of the method that the action is named after,
/// with its arguments.
pub proof fn law_received_actions_are_calls<H: Handler>()
    ensures
        forall|call: &mut H, title: Option<Seq<char>>| #[trigger]
            received(call, ActionView::SetTitle(title))
                ==> (exists|given_title: Option<String>|
                text_view(given_title) == title
                    && #[trigger] call_ensures(H::set_title, (call, given_title), ())),
        forall|call: &mut H, style: Option<CursorStyle>| #[trigger]
            received(call, ActionView::SetCursorStyle(style))
                ==> call_ensures(H::set_cursor_style, (call, style), ()),
        forall|call: &mut H, shape: CursorShape| #[trigger]
            received(call, ActionView::SetCursorShape(shape))
                ==> call_ensures(H::set_cursor_shape, (call, shape), ()),
        forall|call: &mut H, c: char| #[trigger]
            received(call, ActionView::Input(c))
                ==> call_ensures(H::input, (call, c), ()),
        forall|call: &mut H, line: Line, column: Column| #[trigger]
            received(call, ActionView::Goto(line, column))
                ==> call_ensures(H::goto, (call, line, column), ()),
        forall|call: &mut H, line: Line| #[trigger]
            received(call, ActionView::GotoLine(line))
                ==> call_ensures(H::goto_line, (call, line), ()),
        forall|call: &mut H, column: Column| #[trigger]
            received(call, ActionView::GotoCol(column))
                ==> call_ensures(H::goto_col, (call, column), ()),
        forall|call: &mut H, count: usize| #[trigger]
            received(call, ActionView::InsertBlank(count))
                ==> call_ensures(H::insert_blank, (call, count), ()),
        forall|call: &mut H, rows: usize| #[trigger]
            received(call, ActionView::MoveUp(rows))
                ==> call_ensures(H::move_up, (call, rows), ()),
        forall|call: &mut H, rows: usize| #[trigger]
            received(call, ActionView::MoveDown(rows))
                ==> call_ensures(H::move_down, (call, rows), ()),
        forall|call: &mut H, cols: Column| #[trigger]
            received(call, ActionView::MoveForward(cols))
                ==> call_ensures(H::move_forward, (call, cols), ()),
        forall|call: &mut H, cols: Column| #[trigger]
            received(call, ActionView::MoveBackward(cols))
                ==> call_ensures(H::move_backward, (call, cols), ()),
        forall|call: &mut H, rows: usize| #[trigger]
            received(call, ActionView::MoveDownAndCr(rows))
                ==> call_ensures(H::move_down_and_cr, (call, rows), ()),
        forall|call: &mut H, rows: usize| #[trigger]
            received(call, ActionView::MoveUpAndCr(rows))
                ==> call_ensures(H::move_up_and_cr, (call, rows), ()),
        forall|call: &mut H, count: u16| #[trigger]
            received(call, ActionView::PutTab(count))
                ==> call_ensures(H::put_tab, (call, count), ()),
        forall|call: &mut H| #[trigger]
            received(call, ActionView::Backspace)
                ==> call_ensures(H::backspace, (call,), ()),
        forall|call: &mut H| #[trigger]
            received(call, ActionView::CarriageReturn)
                ==> call_ensures(H::carriage_return, (call,), ()),
        forall|call: &mut H| #[trigger]
            received(call, ActionView::Linefeed)
                ==> call_ensures(H::linefeed, (call,), ()),
        forall|call: &mut H| #[trigger]
            received(call, ActionView::Bell)
                ==> call_ensures(H::bell, (call,), ()),
        forall|call: &mut H| #[trigger]
            received(call, ActionView::Substitute)
                ==> call_ensures(H::substitute, (call,), ()),
        forall|call: &mut H| #[trigger]
            received(call, ActionView::SetHorizontalTabstop)
                ==> call_ensures(H::set_horizontal_tabstop, (call,), ()),
        forall|call: &mut H, rows: usize| #[trigger]
            received(call, ActionView::ScrollUp(rows))
                ==> call_ensures(H::scroll_up, (call, rows), ()),
        forall|call: &mut H, rows: usize| #[trigger]
            received(call, ActionView::ScrollDown(rows))
                ==> call_ensures(H::scroll_down, (call, rows), ()),
        forall|call: &mut H, count: usize| #[trigger]
            received(call, ActionView::InsertBlankLines(count))
                ==> call_ensures(H::insert_blank_lines, (call, count), ()),
        forall|call: &mut H, count: usize| #[trigger]
            received(call, ActionView::DeleteLines(count))
                ==> call_ensures(H::delete_lines, (call, count), ()),
        forall|call: &mut H, count: Column| #[trigger]
            received(call, ActionView::EraseChars(count))
                ==> call_ensures(H::erase_chars, (call, count), ()),
        forall|call: &mut H, count: usize| #[trigger]
            received(call, ActionView::DeleteChars(count))
                ==> call_ensures(H::delete_chars, (call, count), ()),
        forall|call: &mut H, count: u16| #[trigger]
            received(call, ActionView::MoveBackwardTabs(count))
                ==> call_ensures(H::move_backward_tabs, (call, count), ()),
        forall|call: &mut H, count: u16| #[trigger]
            received(call, ActionView::MoveForwardTabs(count))
                ==> call_ensures(H::move_forward_tabs, (call, count), ()),
        forall|call: &mut H| #[trigger]
            received(call, ActionView::SaveCursorPosition)
                ==> call_ensures(H::save_cursor_position, (call,), ()),
        forall|call: &mut H| #[trigger]
            received(call, ActionView::RestoreCursorPosition)
                ==> call_ensures(H::restore_cursor_position, (call,), ()),
        forall|call: &mut H, mode: LineClearMode| #[trigger]
            received(call, ActionView::ClearLine(mode))
                ==> call_ensures(H::clear_line, (call, mode), ()),
        forall|call: &mut H, mode: ClearMode| #[trigger]
            received(call, ActionView::ClearScreen(mode))
                ==> call_ensures(H::clear_screen, (call, mode), ()),
        forall|call: &mut H, mode: TabulationClearMode| #[trigger]
            received(call, ActionView::ClearTabs(mode))
                ==> call_ensures(H::clear_tabs, (call, mode), ()),
        forall|call: &mut H| #[trigger]
            received(call, ActionView::ResetState)
                ==> call_ensures(H::reset_state, (call,), ()),
        forall|call: &mut H| #[trigger]
            received(call, ActionView::ReverseIndex)
                ==> call_ensures(H::reverse_index, (call,), ()),
        forall|call: &mut H, attr: Attr| #[trigger]
            received(call, ActionView::TerminalAttribute(attr))
                ==> call_ensures(H::terminal_attribute, (call, attr), ()),
        forall|call: &mut H, mode: Mode| #[trigger]
            received(call, ActionView::SetMode(mode))
                ==> call_ensures(H::set_mode, (call, mode), ()),
        forall|call: &mut H, mode: Mode| #[trigger]
            received(call, ActionView::UnsetMode(mode))
                ==> call_ensures(H::unset_mode, (call, mode), ()),
        forall|call: &mut H, top: usize, bottom: Option<usize>| #[trigger]
            received(call, ActionView::SetScrollingRegion(top, bottom))
                ==> call_ensures(H::set_scrolling_region, (call, top, bottom), ()),
        forall|call: &mut H| #[trigger]
            received(call, ActionView::SetKeypadApplicationMode)
                ==> call_ensures(H::set_keypad_application_mode, (call,), ()),
        forall|call: &mut H| #[trigger]
            received(call, ActionView::UnsetKeypadApplicationMode)
                ==> call_ensures(H::unset_keypad_application_mode, (call,), ()),
        forall|call: &mut H, index: CharsetIndex| #[trigger]
            received(call, ActionView::SetActiveCharset(index))
                ==> call_ensures(H::set_active_charset, (call, index), ()),
        forall|call: &mut H, index: CharsetIndex, charset: StandardCharset| #[trigger]
            received(call, ActionView::ConfigureCharset(index, charset))
                ==> call_ensures(H::configure_charset, (call, index, charset), ()),
        forall|call: &mut H, index: usize, color: Rgb| #[trigger]
            received(call, ActionView::SetColor(index, color))
                ==> call_ensures(H::set_color, (call, index, color), ()),
        forall|call: &mut H, index: usize| #[trigger]
            received(call, ActionView::ResetColor(index))
                ==> call_ensures(H::reset_color, (call, index), ()),
        forall|call: &mut H| #[trigger]
            received(call, ActionView::Decaln)
                ==> call_ensures(H::decaln, (call,), ()),
        forall|call: &mut H| #[trigger]
            received(call, ActionView::PushTitle)
                ==> call_ensures(H::push_title, (call,), ()),
        forall|call: &mut H| #[trigger]
            received(call, ActionView::PopTitle)
                ==> call_ensures(H::pop_title, (call,), ()),
        forall|call: &mut H, command: Seq<char>| #[trigger]
            received(call, ActionView::NewCmd(command))
                ==> (exists|given_command: &str|
                given_command@ == command
                    && #[trigger] call_ensures(H::new_cmd, (call, given_command), ())),
        forall|call: &mut H| #[trigger]
            received(call, ActionView::StartPrompt)
                ==> call_ensures(H::start_prompt, (call,), ()),
        forall|call: &mut H| #[trigger]
            received(call, ActionView::EndPrompt)
                ==> call_ensures(H::end_prompt, (call,), ()),
        forall|call: &mut H| #[trigger]
            received(call, ActionView::PreExec)
                ==> call_ensures(H::pre_exec, (call,), ()),
        forall|call: &mut H, path: Seq<char>| #[trigger]
            received(call, ActionView::Dir(path))
                ==> (exists|given_path: &str|
                given_path@ == path
                    && #[trigger] call_ensures(H::dir, (call, given_path), ())),
        forall|call: &mut H, path: Seq<char>| #[trigger]
            received(call, ActionView::ShellPath(path))
                ==> (exists|given_path: &str|
                given_path@ == path
                    && #[trigger] call_ensures(H::shell_path, (call, given_path), ())),
        forall|call: &mut H, distro: Seq<char>| #[trigger]
            received(call, ActionView::WslDistro(distro))
                ==> (exists|given_distro: &str|
                given_distro@ == distro
                    && #[trigger] call_ensures(H::wsl_distro, (call, given_distro), ())),
        forall|call: &mut H, code: i32| #[trigger]
            received(call, ActionView::ExitCode(code))
                ==> call_ensures(H::exit_code, (call, code), ()),
        forall|call: &mut H, shell: Seq<char>| #[trigger]
            received(call, ActionView::Shell(shell))
                ==> (exists|given_shell: &str|
                given_shell@ == shell
                    && #[trigger] call_ensures(H::shell, (call, given_shell), ())),
        forall|call: &mut H, color: Seq<char>| #[trigger]
            received(call, ActionView::FishSuggestionColor(color))
                ==> (exists|given_color: &str|
                given_color@ == color
                    && #[trigger] call_ensures(H::fish_suggestion_color, (call, given_color), ())),
        forall|call: &mut H, color: Seq<char>| #[trigger]
            received(call, ActionView::ZshSuggestionColor(color))
                ==> (exists|given_color: &str|
                given_color@ == color
                    && #[trigger] call_ensures(H::zsh_suggestion_color, (call, given_color), ())),
        forall|call: &mut H, color: Seq<char>| #[trigger]
            received(call, ActionView::FigSuggestionColor(color))
                ==> (exists|given_color: &str|
                given_color@ == color
                    && #[trigger] call_ensures(H::fig_suggestion_color, (call, given_color), ())),
        forall|call: &mut H, color: Seq<char>| #[trigger]
            received(call, ActionView::NuHintColor(color))
                ==> (exists|given_color: &str|
                given_color@ == color
                    && #[trigger] call_ensures(H::nu_hint_color, (call, given_color), ())),
        forall|call: &mut H, tty: Seq<char>| #[trigger]
            received(call, ActionView::Tty(tty))
                ==> (exists|given_tty: &str|
                given_tty@ == tty
                    && #[trigger] call_ensures(H::tty, (call, given_tty), ())),
        forall|call: &mut H, pid: i32| #[trigger]
            received(call, ActionView::Pid(pid))
                ==> call_ensures(H::pid, (call, pid), ()),
        forall|call: &mut H, name: Seq<char>| #[trigger]
            received(call, ActionView::Username(name))
                ==> (exists|given_name: &str|
                given_name@ == name
                    && #[trigger] call_ensures(H::username, (call, given_name), ())),
        forall|call: &mut H, level: Seq<char>| #[trigger]
            received(call, ActionView::Log(level))
                ==> (exists|given_level: &str|
                given_level@ == level
                    && #[trigger] call_ensures(H::log, (call, given_level), ())),
        forall|call: &mut H, session: Seq<char>| #[trigger]
            received(call, ActionView::OscLock(session))
                ==> (exists|given_session: &str|
                given_session@ == session
                    && #[trigger] call_ensures(H::osc_lock, (call, given_session), ())),
        forall|call: &mut H, session: Seq<char>| #[trigger]
            received(call, ActionView::OscUnlock(session))
                ==> (exists|given_session: &str|
                given_session@ == session
                    && #[trigger] call_ensures(H::osc_unlock, (call, given_session), ())),
        forall|call: &mut H, byte: u8| #[trigger]
            received(call, ActionView::UnhandledExecute(byte))
                ==> (exists|status: HandledStatus|
                #[trigger] call_ensures(H::unhandled_execute, (call, byte), status)),
        forall|
            call: &mut H,
            params: Seq<Seq<u16>>,
            intermediates: Seq<u8>,
            ignore: bool,
            action: char,
        | #[trigger]
            received(call, ActionView::UnhandledHook(params, intermediates, ignore, action))
                ==> (exists|given_params: &ParamList, given_intermediates: &[u8], status: HandledStatus|
                given_params@ == params
                    && given_intermediates@ == intermediates
                    && #[trigger] call_ensures(
                        H::unhandled_hook,
                        (call, given_params, given_intermediates, ignore, action),
                        status,
                    )),
        forall|call: &mut H, byte: u8| #[trigger]
            received(call, ActionView::UnhandledPut(byte))
                ==> (exists|status: HandledStatus|
                #[trigger] call_ensures(H::unhandled_put, (call, byte), status)),
        forall|call: &mut H| #[trigger]
            received(call, ActionView::UnhandledUnhook)
                ==> (exists|status: HandledStatus|
                #[trigger] call_ensures(H::unhandled_unhook, (call,), status)),
        forall|call: &mut H, params: Seq<Seq<u8>>, bell_terminated: bool| #[trigger]
            received(call, ActionView::UnhandledOscDispatch(params, bell_terminated))
                ==> (exists|given_params: &[&[u8]], status: HandledStatus|
                slice_views(given_params@) == params
                    && #[trigger] call_ensures(
                        H::unhandled_osc_dispatch,
                        (call, given_params, bell_terminated),
                        status,
                    )),
        forall|
            call: &mut H,
            params: Seq<Seq<u16>>,
            intermediates: Seq<u8>,
            ignore: bool,
            action: char,
        | #[trigger]
            received(call, ActionView::UnhandledCsiDispatch(params, intermediates, ignore, action))
                ==> (exists|given_params: &ParamList, given_intermediates: &[u8], status: HandledStatus|
                given_params@ == params
                    && given_intermediates@ == intermediates
                    && #[trigger] call_ensures(
                        H::unhandled_csi_dispatch,
                        (call, given_params, given_intermediates, ignore, action),
                        status,
                    )),
        forall|call: &mut H, intermediates: Seq<u8>, ignore: bool, byte: u8| #[trigger]
            received(call, ActionView::UnhandledEscDispatch(intermediates, ignore, byte))
                ==> (exists|given_intermediates: &[u8], status: HandledStatus|
                given_intermediates@ == intermediates
                    && #[trigger] call_ensures(
                        H::unhandled_esc_dispatch,
                        (call, given_intermediates, ignore, byte),
                        status,
                    )),
{
}

/// What an action holds is what it was made of.
pub proof fn law_actions_hold_their_parts()
    ensures
        forall|title: Option<String>| #[trigger] Action::SetTitle(title)@
            == ActionView::SetTitle(text_view(title)),
        forall|style: Option<CursorStyle>| #[trigger] Action::SetCursorStyle(style)@
            == ActionView::SetCursorStyle(style),
        forall|shape: CursorShape| #[trigger] Action::SetCursorShape(shape)@
            == ActionView::SetCursorShape(shape),
        forall|c: char| #[trigger] Action::Input(c)@
            == ActionView::Input(c),
        forall|line: Line, column: Column| #[trigger] Action::Goto(line, column)@
            == ActionView::Goto(line, column),
        forall|line: Line| #[trigger] Action::GotoLine(line)@
            == ActionView::GotoLine(line),
        forall|column: Column| #[trigger] Action::GotoCol(column)@
            == ActionView::GotoCol(column),
        forall|count: usize| #[trigger] Action::InsertBlank(count)@
            == ActionView::InsertBlank(count),
        forall|rows: usize| #[trigger] Action::MoveUp(rows)@
            == ActionView::MoveUp(rows),
        forall|rows: usize| #[trigger] Action::MoveDown(rows)@
            == ActionView::MoveDown(rows),
        forall|cols: Column| #[trigger] Action::MoveForward(cols)@
            == ActionView::MoveForward(cols),
        forall|cols: Column| #[trigger] Action::MoveBackward(cols)@
            == ActionView::MoveBackward(cols),
        forall|rows: usize| #[trigger] Action::MoveDownAndCr(rows)@
            == ActionView::MoveDownAndCr(rows),
        forall|rows: usize| #[trigger] Action::MoveUpAndCr(rows)@
            == ActionView::MoveUpAndCr(rows),
        forall|count: u16| #[trigger] Action::PutTab(count)@
            == ActionView::PutTab(count),
        Action::Backspace@ == ActionView::Backspace,
        Action::CarriageReturn@ == ActionView::CarriageReturn,
        Action::Linefeed@ == ActionView::Linefeed,
        Action::Bell@ == ActionView::Bell,
        Action::Substitute@ == ActionView::Substitute,
        Action::SetHorizontalTabstop@ == ActionView::SetHorizontalTabstop,
        forall|rows: usize| #[trigger] Action::ScrollUp(rows)@
            == ActionView::ScrollUp(rows),
        forall|rows: usize| #[trigger] Action::ScrollDown(rows)@
            == ActionView::ScrollDown(rows),
        forall|count: usize| #[trigger] Action::InsertBlankLines(count)@
            == ActionView::InsertBlankLines(count),
        forall|count: usize| #[trigger] Action::DeleteLines(count)@
            == ActionView::DeleteLines(count),
        forall|count: Column| #[trigger] Action::EraseChars(count)@
            == ActionView::EraseChars(count),
        forall|count: usize| #[trigger] Action::DeleteChars(count)@
            == ActionView::DeleteChars(count),
        forall|count: u16| #[trigger] Action::MoveBackwardTabs(count)@
            == ActionView::MoveBackwardTabs(count),
        forall|count: u16| #[trigger] Action::MoveForwardTabs(count)@
            == ActionView::MoveForwardTabs(count),
        Action::SaveCursorPosition@ == ActionView::SaveCursorPosition,
        Action::RestoreCursorPosition@ == ActionView::RestoreCursorPosition,
        forall|mode: LineClearMode| #[trigger] Action::ClearLine(mode)@
            == ActionView::ClearLine(mode),
        forall|mode: ClearMode| #[trigger] Action::ClearScreen(mode)@
            == ActionView::ClearScreen(mode),
        forall|mode: TabulationClearMode| #[trigger] Action::ClearTabs(mode)@
            == ActionView::ClearTabs(mode),
        Action::ResetState@ == ActionView::ResetState,
        Action::ReverseIndex@ == ActionView::ReverseIndex,
        forall|attr: Attr| #[trigger] Action::TerminalAttribute(attr)@
            == ActionView::TerminalAttribute(attr),
        forall|mode: Mode| #[trigger] Action::SetMode(mode)@
            == ActionView::SetMode(mode),
        forall|mode: Mode| #[trigger] Action::UnsetMode(mode)@
            == ActionView::UnsetMode(mode),
        forall|
            top: usize,
            bottom: Option<usize>,
        | #[trigger] Action::SetScrollingRegion(top, bottom)@
            == ActionView::SetScrollingRegion(top, bottom),
        Action::SetKeypadApplicationMode@ == ActionView::SetKeypadApplicationMode,
        Action::UnsetKeypadApplicationMode@ == ActionView::UnsetKeypadApplicationMode,
        forall|index: CharsetIndex| #[trigger] Action::SetActiveCharset(index)@
            == ActionView::SetActiveCharset(index),
        forall|
            index: CharsetIndex,
            charset: StandardCharset,
        | #[trigger] Action::ConfigureCharset(index, charset)@
            == ActionView::ConfigureCharset(index, charset),
        forall|index: usize, color: Rgb| #[trigger] Action::SetColor(index, color)@
            == ActionView::SetColor(index, color),
        forall|index: usize| #[trigger] Action::ResetColor(index)@
            == ActionView::ResetColor(index),
        Action::Decaln@ == ActionView::Decaln,
        Action::PushTitle@ == ActionView::PushTitle,
        Action::PopTitle@ == ActionView::PopTitle,
        forall|command: String| #[trigger] Action::NewCmd(command)@
            == ActionView::NewCmd(command@),
        Action::StartPrompt@ == ActionView::StartPrompt,
        Action::EndPrompt@ == ActionView::EndPrompt,
        Action::PreExec@ == ActionView::PreExec,
        forall|path: String| #[trigger] Action::Dir(path)@
            == ActionView::Dir(path@),
        forall|path: String| #[trigger] Action::ShellPath(path)@
            == ActionView::ShellPath(path@),
        forall|distro: String| #[trigger] Action::WslDistro(distro)@
            == ActionView::WslDistro(distro@),
        forall|code: i32| #[trigger] Action::ExitCode(code)@
            == ActionView::ExitCode(code),
        forall|shell: String| #[trigger] Action::Shell(shell)@
            == ActionView::Shell(shell@),
        forall|color: String| #[trigger] Action::FishSuggestionColor(color)@
            == ActionView::FishSuggestionColor(color@),
        forall|color: String| #[trigger] Action::ZshSuggestionColor(color)@
            == ActionView::ZshSuggestionColor(color@),
        forall|color: String| #[trigger] Action::FigSuggestionColor(color)@
            == ActionView::FigSuggestionColor(color@),
        forall|color: String| #[trigger] Action::NuHintColor(color)@
            == ActionView::NuHintColor(color@),
        forall|tty: String| #[trigger] Action::Tty(tty)@
            == ActionView::Tty(tty@),
        forall|pid: i32| #[trigger] Action::Pid(pid)@
            == ActionView::Pid(pid),
        forall|name: String| #[trigger] Action::Username(name)@
            == ActionView::Username(name@),
        forall|level: String| #[trigger] Action::Log(level)@
            == ActionView::Log(level@),
        forall|session: String| #[trigger] Action::OscLock(session)@
            == ActionView::OscLock(session@),
        forall|session: String| #[trigger] Action::OscUnlock(session)@
            == ActionView::OscUnlock(session@),
        forall|byte: u8| #[trigger] Action::UnhandledExecute(byte)@
            == ActionView::UnhandledExecute(byte),
        forall|
            params: ParamList,
            intermediates: Vec<u8>,
            ignore: bool,
            action: char,
        | #[trigger] Action::UnhandledHook(params, intermediates, ignore, action)@
            == ActionView::UnhandledHook(params@, intermediates@, ignore, action),
        forall|byte: u8| #[trigger] Action::UnhandledPut(byte)@
            == ActionView::UnhandledPut(byte),
        Action::UnhandledUnhook@ == ActionView::UnhandledUnhook,
        forall|
            params: Vec<Vec<u8>>,
            bell_terminated: bool,
        | #[trigger] Action::UnhandledOscDispatch(params, bell_terminated)@
            == ActionView::UnhandledOscDispatch(vec_views(params@), bell_terminated),
        forall|
            params: ParamList,
            intermediates: Vec<u8>,
            ignore: bool,
            action: char,
        | #[trigger] Action::UnhandledCsiDispatch(params, intermediates, ignore, action)@
            == ActionView::UnhandledCsiDispatch(params@, intermediates@, ignore, action),
        forall|
            intermediates: Vec<u8>,
            ignore: bool,
            byte: u8,
        | #[trigger] Action::UnhandledEscDispatch(intermediates, ignore, byte)@
            == ActionView::UnhandledEscDispatch(intermediates@, ignore, byte),
{
}

/// What an event holds is what it was made of.
pub proof fn law_events_hold_their_parts(
    c: char,
    byte: u8,
    flag: bool,
    params: ParamList,
    intermediates: Vec<u8>,
    fields: Vec<Vec<u8>>,
)
    ensures
        Event::Print(c)@ == EventView::Print(c),
        Event::Execute(byte)@ == EventView::Execute(byte),
        Event::Put(byte)@ == EventView::Put(byte),
        Event::Unhook@ == EventView::Unhook,
        (Event::Hook { params, intermediates, ignore: flag, action: c })@ == (EventView::Hook {
            params: params@,
            intermediates: intermediates@,
            ignore: flag,
            action: c,
        }),
        (Event::CsiDispatch { params, intermediates, ignore: flag, action: c })@
            == (EventView::CsiDispatch {
            params: params@,
            intermediates: intermediates@,
            ignore: flag,
            action: c,
        }),
        (Event::EscDispatch { intermediates, ignore: flag, byte })@ == (EventView::EscDispatch {
            intermediates: intermediates@,
            ignore: flag,
            byte,
        }),
        (Event::OscDispatch { fields, bell_terminated: flag })@ == (EventView::OscDispatch {
            fields: vec_views(fields@),
            bell_terminated: flag,
        }),
{
}

/// What a list holds is what its members hold, in their order.
pub proof fn law_lists_hold_their_members(
    actions: Seq<Action>,
    events: Seq<Event>,
    vecs: Seq<Vec<u8>>,
    slices: Seq<&[u8]>,
    groups: Seq<Vec<u16>>,
    i: int,
)
    ensures
        action_views(actions).len() == actions.len(),
        0 <= i < actions.len() ==> action_views(actions)[i] == actions[i]@,
        event_views(events).len() == events.len(),
        0 <= i < events.len() ==> event_views(events)[i] == events[i]@,
        vec_views(vecs).len() == vecs.len(),
        0 <= i < vecs.len() ==> vec_views(vecs)[i] == vecs[i]@,
        slice_views(slices).len() == slices.len(),
        0 <= i < slices.len() ==> slice_views(slices)[i] == slices[i]@,
        group_views(groups).len() == groups.len(),
        0 <= i < groups.len() ==> group_views(groups)[i] == groups[i]@,
        0 <= i < groups.len() && groups[i]@.len() == 0 ==> !no_group_empty(group_views(groups)),
        (forall|j: int| 0 <= j < groups.len() ==> (#[trigger] groups[j])@.len() > 0)
            ==> no_group_empty(group_views(groups)),
{
    if 0 <= i < groups.len() && groups[i]@.len() == 0 {
        assert(group_views(groups)[i].len() == 0);
    }
}

/// A handler that received actions was called once for each of them, in their order, each time
/// in the state in which the call before had left it, and is at last in the state in which the
/// last call left it.
pub proof fn law_performed_actions_are_received_in_order<H: Handler>(
    pre: H,
    calls: Seq<&mut H>,
    run: Seq<H>,
    actions: Seq<ActionView>,
    post: H,
    i: int,
)
    requires
        performed(pre, calls, run, actions, post),
    ensures
        calls.len() == actions.len(),
        run.len() == actions.len(),
        0 <= i < actions.len() ==> received(calls[i], actions[i]),
        actions.len() == 0 ==> post == pre,
        actions.len() > 0 ==> *calls[0] == pre && post == run[actions.len() - 1],
        0 < i < actions.len() ==> *calls[i] == run[i - 1],
{
    assert(0 <= i < actions.len() ==> *calls[i] == state_before(pre, run, i));
    if actions.len() > 0 {
        assert(*calls[0] == state_before(pre, run, 0));
    }
}

} // verus!
