//! The receiver of what the byte stream asks for.

use vstd::prelude::*;

use crate::attr::Attr;
use crate::charset::{CharsetIndex, StandardCharset};
use crate::color::Rgb;
use crate::cursor::{CursorShape, CursorStyle};
use crate::index::{Column, Line};
use crate::mode::{ClearMode, LineClearMode, Mode, TabulationClearMode};
use crate::params::ParamList;

verus! {

/// Indicates if a handler has handled an action
#[derive(Debug, Eq, PartialEq, Copy, Clone, Structural)]
pub enum HandledStatus {
    Handled,
    Unhandled,
}

/// Type that handles actions from the parser.
///
/// By default a handler does nothing, so that an implementation need only name the actions
/// that it cares about. The processor looks at nothing that a handler returns.
pub trait Handler {
    /// OSC to set window title.
    fn set_title(&mut self, _title: Option<String>)
        default_ensures
            &*final(self) == &*old(self),
    {
    }

    /// Set the cursor style.
    fn set_cursor_style(&mut self, _style: Option<CursorStyle>)
        default_ensures
            &*final(self) == &*old(self),
    {
    }

    /// Set the cursor shape.
    fn set_cursor_shape(&mut self, _shape: CursorShape)
        default_ensures
            &*final(self) == &*old(self),
    {
    }

    /// A character to be displayed.
    fn input(&mut self, _c: char)
        default_ensures
            &*final(self) == &*old(self),
    {
    }

    /// Set cursor to position.
    fn goto(&mut self, _line: Line, _column: Column)
        default_ensures
            &*final(self) == &*old(self),
    {
    }

    /// Set cursor to specific row.
    fn goto_line(&mut self, _line: Line)
        default_ensures
            &*final(self) == &*old(self),
    {
    }

    /// Set cursor to specific column.
    fn goto_col(&mut self, _column: Column)
        default_ensures
            &*final(self) == &*old(self),
    {
    }

    /// Insert blank characters in current line starting from cursor.
    fn insert_blank(&mut self, _count: usize)
        default_ensures
            &*final(self) == &*old(self),
    {
    }

    /// Move cursor up `rows`.
    fn move_up(&mut self, _rows: usize)
        default_ensures
            &*final(self) == &*old(self),
    {
    }

    /// Move cursor down `rows`.
    fn move_down(&mut self, _rows: usize)
        default_ensures
            &*final(self) == &*old(self),
    {
    }

    /// Move cursor forward `cols`.
    fn move_forward(&mut self, _cols: Column)
        default_ensures
            &*final(self) == &*old(self),
    {
    }

    /// Move cursor backward `cols`.
    fn move_backward(&mut self, _cols: Column)
        default_ensures
            &*final(self) == &*old(self),
    {
    }

    /// Move cursor down `rows` and set to column 1.
    fn move_down_and_cr(&mut self, _rows: usize)
        default_ensures
            &*final(self) == &*old(self),
    {
    }

    /// Move cursor up `rows` and set to column 1.
    fn move_up_and_cr(&mut self, _rows: usize)
        default_ensures
            &*final(self) == &*old(self),
    {
    }

    /// Put `count` tabs.
    fn put_tab(&mut self, _count: u16)
        default_ensures
            &*final(self) == &*old(self),
    {
    }

    /// Backspace one character.
    fn backspace(&mut self)
        default_ensures
            &*final(self) == &*old(self),
    {
    }

    /// Carriage return.
    fn carriage_return(&mut self)
        default_ensures
            &*final(self) == &*old(self),
    {
    }

    /// Linefeed.
    fn linefeed(&mut self)
        default_ensures
            &*final(self) == &*old(self),
    {
    }

    /// Ring the bell.
    ///
    /// Hopefully this is never implemented.
    fn bell(&mut self)
        default_ensures
            &*final(self) == &*old(self),
    {
    }

    /// Substitute char under cursor.
    fn substitute(&mut self)
        default_ensures
            &*final(self) == &*old(self),
    {
    }

    /// Newline.
    fn newline(&mut self)
        default_ensures
            &*final(self) == &*old(self),
    {
    }

    /// Set current position as a tabstop.
    fn set_horizontal_tabstop(&mut self)
        default_ensures
            &*final(self) == &*old(self),
    {
    }

    /// Scroll up `rows` rows.
    fn scroll_up(&mut self, _rows: usize)
        default_ensures
            &*final(self) == &*old(self),
    {
    }

    /// Scroll down `rows` rows.
    fn scroll_down(&mut self, _rows: usize)
        default_ensures
            &*final(self) == &*old(self),
    {
    }

    /// Insert `count` blank lines.
    fn insert_blank_lines(&mut self, _count: usize)
        default_ensures
            &*final(self) == &*old(self),
    {
    }

    /// Delete `count` lines.
    fn delete_lines(&mut self, _count: usize)
        default_ensures
            &*final(self) == &*old(self),
    {
    }

    /// Erase `count` chars in current line following cursor.
    ///
    /// Erase means resetting to the default state (default colors, no content,
    /// no mode flags).
    fn erase_chars(&mut self, _count: Column)
        default_ensures
            &*final(self) == &*old(self),
    {
    }

    /// Delete `count` chars.
    ///
    /// Deleting a character is like the delete key on the keyboard - everything
    /// to the right of the deleted things is shifted left.
    fn delete_chars(&mut self, _count: usize)
        default_ensures
            &*final(self) == &*old(self),
    {
    }

    /// Move backward `count` tabs.
    fn move_backward_tabs(&mut self, _count: u16)
        default_ensures
            &*final(self) == &*old(self),
    {
    }

    /// Move forward `count` tabs.
    fn move_forward_tabs(&mut self, _count: u16)
        default_ensures
            &*final(self) == &*old(self),
    {
    }

    /// Save current cursor position.
    fn save_cursor_position(&mut self)
        default_ensures
            &*final(self) == &*old(self),
    {
    }

    /// Restore cursor position.
    fn restore_cursor_position(&mut self)
        default_ensures
            &*final(self) == &*old(self),
    {
    }

    /// Clear current line.
    fn clear_line(&mut self, _mode: LineClearMode)
        default_ensures
            &*final(self) == &*old(self),
    {
    }

    /// Clear screen.
    fn clear_screen(&mut self, _mode: ClearMode)
        default_ensures
            &*final(self) == &*old(self),
    {
    }

    /// Clear tab stops.
    fn clear_tabs(&mut self, _mode: TabulationClearMode)
        default_ensures
            &*final(self) == &*old(self),
    {
    }

    /// Reset terminal state.
    fn reset_state(&mut self)
        default_ensures
            &*final(self) == &*old(self),
    {
    }

    /// Reverse Index.
    ///
    /// Move the active position to the same horizontal position on the
    /// preceding line. If the active position is at the top margin, a scroll
    /// down is performed.
    fn reverse_index(&mut self)
        default_ensures
            &*final(self) == &*old(self),
    {
    }

    /// Set a terminal attribute.
    fn terminal_attribute(&mut self, _attr: Attr)
        default_ensures
            &*final(self) == &*old(self),
    {
    }

    /// Set mode.
    fn set_mode(&mut self, _mode: Mode)
        default_ensures
            &*final(self) == &*old(self),
    {
    }

    /// Unset mode.
    fn unset_mode(&mut self, _mode: Mode)
        default_ensures
            &*final(self) == &*old(self),
    {
    }

    /// DECSTBM - Set the terminal scrolling region.
    fn set_scrolling_region(&mut self, _top: usize, _bottom: Option<usize>)
        default_ensures
            &*final(self) == &*old(self),
    {
    }

    /// DECKPAM - Set keypad to applications mode (ESCape instead of digits).
    fn set_keypad_application_mode(&mut self)
        default_ensures
            &*final(self) == &*old(self),
    {
    }

    /// DECKPNM - Set keypad to numeric mode (digits instead of ESCape seq).
    fn unset_keypad_application_mode(&mut self)
        default_ensures
            &*final(self) == &*old(self),
    {
    }

    /// Set one of the graphic character sets, G0 to G3, as the active charset.
    ///
    /// 'Invoke' one of G0 to G3 in the GL area. Also referred to as shift in,
    /// shift out and locking shift depending on the set being activated.
    fn set_active_charset(&mut self, _index: CharsetIndex)
        default_ensures
            &*final(self) == &*old(self),
    {
    }

    /// Assign a graphic character set to G0, G1, G2 or G3.
    ///
    /// 'Designate' a graphic character set as one of G0 to G3, so that it can
    /// later be 'invoked' by `set_active_charset`.
    fn configure_charset(&mut self, _index: CharsetIndex, _charset: StandardCharset)
        default_ensures
            &*final(self) == &*old(self),
    {
    }

    /// Set an indexed color value.
    fn set_color(&mut self, _index: usize, _color: Rgb)
        default_ensures
            &*final(self) == &*old(self),
    {
    }

    /// Reset an indexed color to original value.
    fn reset_color(&mut self, _index: usize)
        default_ensures
            &*final(self) == &*old(self),
    {
    }

    /// Run the decaln routine.
    fn decaln(&mut self)
        default_ensures
            &*final(self) == &*old(self),
    {
    }

    /// Push a title onto the stack.
    fn push_title(&mut self)
        default_ensures
            &*final(self) == &*old(self),
    {
    }

    /// Pop the last title from the stack.
    fn pop_title(&mut self)
        default_ensures
            &*final(self) == &*old(self),
    {
    }

    /// Fig NewCmd Osc
    fn new_cmd(&mut self, _command: &str)
        default_ensures
            &*final(self) == &*old(self),
    {
    }

    /// Fig StartPrompt Osc
    fn start_prompt(&mut self)
        default_ensures
            &*final(self) == &*old(self),
    {
    }

    /// Fig EndPrompt Osc
    fn end_prompt(&mut self)
        default_ensures
            &*final(self) == &*old(self),
    {
    }

    /// Fig PreExec Osc
    fn pre_exec(&mut self)
        default_ensures
            &*final(self) == &*old(self),
    {
    }

    /// Fig Dir Osc
    fn dir(&mut self, _path: &str)
        default_ensures
            &*final(self) == &*old(self),
    {
    }

    /// Fig ShellPath Osc
    fn shell_path(&mut self, _path: &str)
        default_ensures
            &*final(self) == &*old(self),
    {
    }

    /// Fig WSL Distro Osc
    fn wsl_distro(&mut self, _distro: &str)
        default_ensures
            &*final(self) == &*old(self),
    {
    }

    /// Fig ExitCode Osc
    fn exit_code(&mut self, _code: i32)
        default_ensures
            &*final(self) == &*old(self),
    {
    }

    /// Fig Shell Osc
    fn shell(&mut self, _shell: &str)
        default_ensures
            &*final(self) == &*old(self),
    {
    }

    /// Fig FishSuggestionColor Osc
    fn fish_suggestion_color(&mut self, _color: &str)
        default_ensures
            &*final(self) == &*old(self),
    {
    }

    /// Fig ZshSuggestionColor Osc
    fn zsh_suggestion_color(&mut self, _color: &str)
        default_ensures
            &*final(self) == &*old(self),
    {
    }

    /// FigSuggestionColor Osc
    fn fig_suggestion_color(&mut self, _color: &str)
        default_ensures
            &*final(self) == &*old(self),
    {
    }

    /// Fig NuSuggestionColor Osc
    fn nu_hint_color(&mut self, _color: &str)
        default_ensures
            &*final(self) == &*old(self),
    {
    }

    /// Fig tty Osc
    fn tty(&mut self, _tty: &str)
        default_ensures
            &*final(self) == &*old(self),
    {
    }

    /// Fig PID Osc
    fn pid(&mut self, _pid: i32)
        default_ensures
            &*final(self) == &*old(self),
    {
    }

    /// Fig Username Osc
    fn username(&mut self, _name: &str)
        default_ensures
            &*final(self) == &*old(self),
    {
    }

    /// Fig Log Osc
    fn log(&mut self, _level: &str)
        default_ensures
            &*final(self) == &*old(self),
    {
    }

    /// Fig OSCLock Osc
    fn osc_lock(&mut self, _session: &str)
        default_ensures
            &*final(self) == &*old(self),
    {
    }

    /// Fig OSCUnlock OSC
    fn osc_unlock(&mut self, _session: &str)
        default_ensures
            &*final(self) == &*old(self),
    {
    }

    /// Unhandled `execute` fallthrough
    fn unhandled_execute(&mut self, _byte: u8) -> (status: HandledStatus)
        default_ensures
            &*final(self) == &*old(self),
            status == HandledStatus::Unhandled,
    {
        HandledStatus::Unhandled
    }

    /// Unhandled `hook` fallthrough
    fn unhandled_hook(
        &mut self,
        _params: &ParamList,
        _intermediates: &[u8],
        _ignore: bool,
        _action: char,
    ) -> (status: HandledStatus)
        default_ensures
            &*final(self) == &*old(self),
            status == HandledStatus::Unhandled,
    {
        HandledStatus::Unhandled
    }

    /// Unhandled `put` fallthrough
    fn unhandled_put(&mut self, _byte: u8) -> (status: HandledStatus)
        default_ensures
            &*final(self) == &*old(self),
            status == HandledStatus::Unhandled,
    {
        HandledStatus::Unhandled
    }

    /// Unhandled `unhook` fallthrough
    fn unhandled_unhook(&mut self) -> (status: HandledStatus)
        default_ensures
            &*final(self) == &*old(self),
            status == HandledStatus::Unhandled,
    {
        HandledStatus::Unhandled
    }

    /// Unhandled `osc_dispatch` fallthrough
    fn unhandled_osc_dispatch(
        &mut self,
        _params: &[&[u8]],
        _bell_terminated: bool,
    ) -> (status: HandledStatus)
        default_ensures
            &*final(self) == &*old(self),
            status == HandledStatus::Unhandled,
    {
        HandledStatus::Unhandled
    }

    /// Unhandled `csi_dispatch` fallthrough
    fn unhandled_csi_dispatch(
        &mut self,
        _params: &ParamList,
        _intermediates: &[u8],
        _ignore: bool,
        _action: char,
    ) -> (status: HandledStatus)
        default_ensures
            &*final(self) == &*old(self),
            status == HandledStatus::Unhandled,
    {
        HandledStatus::Unhandled
    }

    /// Unhandled `esc_dispatch` fallthrough
    fn unhandled_esc_dispatch(
        &mut self,
        _intermediates: &[u8],
        _ignore: bool,
        _byte: u8,
    ) -> (status: HandledStatus)
        default_ensures
            &*final(self) == &*old(self),
            status == HandledStatus::Unhandled,
    {
        HandledStatus::Unhandled
    }
}

} // verus!
