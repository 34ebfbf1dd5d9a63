//! Operating system commands.

use vstd::prelude::*;
use vstd::string::*;

use crate::action::{action_views, single, Action, ActionView};
use crate::bytes::{slice_views, spells, to_byte_strings};
use crate::color::{NamedColor, Rgb};
use crate::cursor::CursorShape;
use crate::number::{byte_number, parse_i32, parse_number, signed_number};
use crate::text::{decoded, decoded_all, join_texts, joined, trimmed, utf8_text};
use crate::xcolor::{x_color, xparse_color};

verus! {

/// The title that the fields of a command give.
pub open spec fn title(fields: Seq<Seq<u8>>) -> Seq<char> {
    trimmed(joined(decoded_all(fields.skip(1)), ";"@))
}

/// The first pair of a color index and a color, from the field number `i` on.
pub open spec fn first_indexed_color(fields: Seq<Seq<u8>>, i: int) -> Option<(u8, Rgb)>
    decreases fields.len() - i,
{
    if i + 1 >= fields.len() {
        None
    } else if byte_number(fields[i]) is Some && x_color(fields[i + 1]) is Some {
        Some((byte_number(fields[i])->0, x_color(fields[i + 1])->0))
    } else {
        first_indexed_color(fields, i + 2)
    }
}

/// The action that sets the color with the given index, as far as a command can set it and
/// the field gives a color.
pub open spec fn dynamic_color_action(
    field: Seq<u8>,
    index: int,
    unhandled: ActionView,
) -> ActionView {
    if index <= NamedColor::Cursor.slot() && x_color(field) is Some {
        ActionView::SetColor(index as usize, x_color(field)->0)
    } else {
        unhandled
    }
}

/// The actions of a command that sets the colors of the foreground, the background and the
/// cursor, beginning with the one with the index `first`: one for each field, up to the first
/// field that is left over.
pub open spec fn dynamic_color_actions(
    fields: Seq<Seq<u8>>,
    first: int,
    unhandled: ActionView,
) -> Seq<ActionView> {
    let colors = NamedColor::Cursor.slot() - first + 1;
    let count = if fields.len() - 1 <= colors {
        fields.len() - 1
    } else {
        colors + 1
    };
    Seq::new(count as nat, |i: int| dynamic_color_action(fields[i + 1], first + i, unhandled))
}

/// The cursor shape that the fields of a command give.
pub open spec fn cursor_shape(fields: Seq<Seq<u8>>) -> Option<CursorShape> {
    if fields.len() >= 2 && fields[1].len() >= 13 && fields[1].take(12)
        == "CursorShape=".spec_bytes() {
        match fields[1][12] as char {
            '0' => Some(CursorShape::Block),
            '1' => Some(CursorShape::Beam),
            '2' => Some(CursorShape::Underline),
            _ => None,
        }
    } else {
        None
    }
}

/// The actions of a command that resets colors.
pub open spec fn reset_color_actions(
    fields: Seq<Seq<u8>>,
    unhandled: ActionView,
) -> Seq<ActionView> {
    if fields.len() == 1 {
        Seq::new(256, |i: int| ActionView::ResetColor(i as usize))
    } else {
        fields.skip(1).map_values(
            |field: Seq<u8>|
                match byte_number(field) {
                    Some(index) => ActionView::ResetColor(index as usize),
                    None => unhandled,
                },
        )
    }
}

/// The action for a key of the shell integration that comes with a text.
pub open spec fn text_action(key: Seq<u8>, text: Seq<char>) -> Option<ActionView> {
    if key == "Dir".spec_bytes() {
        Some(ActionView::Dir(text))
    } else if key == "ShellPath".spec_bytes() {
        Some(ActionView::ShellPath(text))
    } else if key == "WSLDistro".spec_bytes() {
        Some(ActionView::WslDistro(text))
    } else if key == "Shell".spec_bytes() {
        Some(ActionView::Shell(text))
    } else if key == "FishSuggestionColor".spec_bytes() {
        Some(ActionView::FishSuggestionColor(text))
    } else if key == "ZshAutosuggestionColor".spec_bytes() {
        Some(ActionView::ZshSuggestionColor(text))
    } else if key == "FigAutosuggestionColor".spec_bytes() {
        Some(ActionView::FigSuggestionColor(text))
    } else if key == "NuHintColor".spec_bytes() {
        Some(ActionView::NuHintColor(text))
    } else if key == "TTY".spec_bytes() {
        Some(ActionView::Tty(text))
    } else if key == "User".spec_bytes() {
        Some(ActionView::Username(text))
    } else if key == "Log".spec_bytes() {
        Some(ActionView::Log(text))
    } else if key == "NewCmd".spec_bytes() {
        Some(ActionView::NewCmd(text))
    } else if key == "OSCLock".spec_bytes() {
        Some(ActionView::OscLock(text))
    } else if key == "OSCUnlock".spec_bytes() {
        Some(ActionView::OscUnlock(text))
    } else {
        None
    }
}

/// The number that a value of the shell integration gives.
pub open spec fn value_number(value: Seq<u8>) -> Option<i32> {
    match signed_number(value) {
        Some(number) => if i32::MIN <= number <= i32::MAX {
            Some(number as i32)
        } else {
            None
        },
        None => None,
    }
}

/// The actions for a key of the shell integration with a value. A value that is not of the
/// kind that the key comes with is passed over.
pub open spec fn keyed_actions(
    key: Seq<u8>,
    value: Seq<u8>,
    unhandled: ActionView,
) -> Seq<ActionView> {
    if key == "ExitCode".spec_bytes() {
        match value_number(value) {
            Some(code) => seq![ActionView::ExitCode(code)],
            None => seq![],
        }
    } else if key == "PID".spec_bytes() {
        match value_number(value) {
            Some(pid) => seq![ActionView::Pid(pid)],
            None => seq![],
        }
    } else if text_action(key, seq![]) is None {
        seq![unhandled]
    } else {
        match decoded(value) {
            Some(text) => seq![text_action(key, text)->0],
            None => seq![],
        }
    }
}

/// The actions for a field of the shell integration.
pub open spec fn shell_actions(field: Seq<u8>, unhandled: ActionView) -> Seq<ActionView> {
    if field == "NewCmd".spec_bytes() {
        seq![ActionView::NewCmd(seq![])]
    } else if field == "StartPrompt".spec_bytes() {
        seq![ActionView::StartPrompt]
    } else if field == "EndPrompt".spec_bytes() {
        seq![ActionView::EndPrompt]
    } else if field == "PreExec".spec_bytes() {
        seq![ActionView::PreExec]
    } else {
        match field.index_of_first('=' as u8) {
            Some(eq) => if eq + 1 == field.len() {
                seq![unhandled]
            } else {
                keyed_actions(field.take(eq), field.skip(eq + 1), unhandled)
            },
            None => seq![],
        }
    }
}

/// The actions that an operating system command asks for.
pub open spec fn osc_actions(fields: Seq<Seq<u8>>, bell_terminated: bool) -> Seq<ActionView> {
    let unhandled = ActionView::UnhandledOscDispatch(fields, bell_terminated);
    if fields.len() == 0 || fields[0].len() == 0 {
        seq![]
    } else if fields[0] == "0".spec_bytes() || fields[0] == "2".spec_bytes() {
        // Set window title.
        if fields.len() >= 2 {
            seq![ActionView::SetTitle(Some(title(fields)))]
        } else {
            seq![unhandled]
        }
    } else if fields[0] == "4".spec_bytes() {
        // Set color index.
        if fields.len() % 2 == 1 && first_indexed_color(fields, 1) is Some {
            let (index, color) = first_indexed_color(fields, 1)->0;
            seq![ActionView::SetColor(index as usize, color)]
        } else {
            seq![unhandled]
        }
    } else if fields[0] == "10".spec_bytes() || fields[0] == "11".spec_bytes() || fields[0]
        == "12".spec_bytes() {
        // Set foreground, background and cursor colors.
        let first = if fields[0] == "10".spec_bytes() {
            NamedColor::Foreground
        } else if fields[0] == "11".spec_bytes() {
            NamedColor::Background
        } else {
            NamedColor::Cursor
        };
        if fields.len() >= 2 {
            dynamic_color_actions(fields, first.slot(), unhandled)
        } else {
            seq![unhandled]
        }
    } else if fields[0] == "50".spec_bytes() {
        // Set cursor style.
        match cursor_shape(fields) {
            Some(shape) => seq![ActionView::SetCursorShape(shape)],
            None => seq![unhandled],
        }
    } else if fields[0] == "104".spec_bytes() {
        // Reset color index.
        reset_color_actions(fields, unhandled)
    } else if fields[0] == "110".spec_bytes() {
        seq![ActionView::ResetColor(NamedColor::Foreground.slot() as usize)]
    } else if fields[0] == "111".spec_bytes() {
        seq![ActionView::ResetColor(NamedColor::Background.slot() as usize)]
    } else if fields[0] == "112".spec_bytes() {
        seq![ActionView::ResetColor(NamedColor::Cursor.slot() as usize)]
    } else if fields[0] == "697".spec_bytes() {
        // Shell integration.
        if fields.len() >= 2 {
            shell_actions(fields[1], unhandled)
        } else {
            seq![]
        }
    } else {
        seq![unhandled]
    }
}

/// An operating system command, as the parser found it.
struct Osc<'a> {
    fields: &'a [&'a [u8]],
    bell_terminated: bool,
}

impl<'a> Osc<'a> {
    spec fn views(self) -> Seq<Seq<u8>> {
        slice_views(self.fields@)
    }

    spec fn as_unhandled(self) -> ActionView {
        ActionView::UnhandledOscDispatch(self.views(), self.bell_terminated)
    }

    /// The action for a command that nothing else handles.
    fn unhandled(&self) -> (action: Action)
        ensures
            action@ == self.as_unhandled(),
    {
        Action::UnhandledOscDispatch(to_byte_strings(self.fields), self.bell_terminated)
    }

    /// Sets the first indexed color that the fields give.
    fn indexed_color(&self) -> (action: Action)
        ensures
            action@ == if self.views().len() % 2 == 1 && first_indexed_color(
                self.views(),
                1,
            ) is Some {
                let (index, color) = first_indexed_color(self.views(), 1)->0;
                ActionView::SetColor(index as usize, color)
            } else {
                self.as_unhandled()
            },
    {
        if self.fields.len() % 2 == 1 {
            let mut i: usize = 1;
            while i < self.fields.len()
                invariant
                    self.fields@.len() % 2 == 1,
                    i % 2 == 1,
                    1 <= i <= self.fields@.len(),
                    first_indexed_color(self.views(), 1) == first_indexed_color(
                        self.views(),
                        i as int,
                    ),
                decreases self.fields@.len() - i,
            {
                let index: Option<u8> = parse_number(self.fields[i]);
                let color: Option<Rgb> = xparse_color(self.fields[i + 1]);
                if let (Some(index), Some(color)) = (index, color) {
                    return Action::SetColor(index as usize, color);
                }
                i += 2;
            }
        }
        self.unhandled()
    }

    /// Sets the colors of the foreground, the background and the cursor, beginning with the
    /// one with the given index.
    fn dynamic_colors(&self, first: usize) -> (actions: Vec<Action>)
        requires
            self.views().len() >= 1,
            first <= NamedColor::Cursor.slot(),
        ensures
            action_views(actions@) == dynamic_color_actions(
                self.views(),
                first as int,
                self.as_unhandled(),
            ),
    {
        let ghost whole = dynamic_color_actions(self.views(), first as int, self.as_unhandled());
        let mut actions: Vec<Action> = Vec::new();
        let mut index: usize = first;
        let mut i: usize = 1;
        while i < self.fields.len()
            invariant
                1 <= i <= self.fields@.len(),
                index == first + i - 1,
                first <= index <= NamedColor::Cursor.slot() + 1,
                whole == dynamic_color_actions(self.views(), first as int, self.as_unhandled()),
                actions@.len() == i - 1,
                forall|j: int| 0 <= j < i - 1 ==> (#[trigger] actions@[j])@ == whole[j],
            decreases self.fields@.len() - i,
        {
            // End of setting dynamic colors.
            if index > NamedColor::Cursor.index() {
                actions.push(self.unhandled());
                assert(action_views(actions@) =~= whole);
                return actions;
            }
            let action: Action = match xparse_color(self.fields[i]) {
                Some(color) => Action::SetColor(index, color),
                None => self.unhandled(),
            };
            assert(action@ == whole[i - 1]);
            actions.push(action);
            index += 1;
            i += 1;
        }
        assert(action_views(actions@) =~= whole);
        actions
    }

    /// Sets the cursor shape.
    fn cursor_shape(&self) -> (action: Action)
        ensures
            action@ == match cursor_shape(self.views()) {
                Some(shape) => ActionView::SetCursorShape(shape),
                None => self.as_unhandled(),
            },
    {
        if self.fields.len() >= 2 && self.fields[1].len() >= 13 {
            let field: &[u8] = self.fields[1];
            assert(field@ == self.views()[1]);
            assert(field@.take(12) =~= field@.subrange(0, 12));
            if spells(&field[0..12], "CursorShape=") {
                return match field[12] as char {
                    '0' => Action::SetCursorShape(CursorShape::Block),
                    '1' => Action::SetCursorShape(CursorShape::Beam),
                    '2' => Action::SetCursorShape(CursorShape::Underline),
                    _ => self.unhandled(),
                };
            }
        }
        self.unhandled()
    }

    /// Resets the colors that the fields number, or all of them.
    fn reset_colors(&self) -> (actions: Vec<Action>)
        requires
            self.views().len() >= 1,
        ensures
            action_views(actions@) == reset_color_actions(self.views(), self.as_unhandled()),
    {
        let mut actions: Vec<Action> = Vec::new();
        if self.fields.len() == 1 {
            // Reset all color indexes when no parameters are given.
            let mut i: usize = 0;
            while i < 256
                invariant
                    i <= 256,
                    actions@.len() == i,
                    forall|j: int|
                        0 <= j < i ==> (#[trigger] actions@[j])@ == ActionView::ResetColor(
                            j as usize,
                        ),
                decreases 256 - i,
            {
                actions.push(Action::ResetColor(i));
                i += 1;
            }
        } else {
            // Reset color indexes given as parameters.
            let mut i: usize = 1;
            while i < self.fields.len()
                invariant
                    1 <= i <= self.fields@.len(),
                    actions@.len() == i - 1,
                    forall|j: int|
                        0 <= j < i - 1 ==> (#[trigger] actions@[j])@ == match byte_number(
                            self.fields@[j + 1]@,
                        ) {
                            Some(index) => ActionView::ResetColor(index as usize),
                            None => self.as_unhandled(),
                        },
                decreases self.fields@.len() - i,
            {
                let action: Action = match parse_number(self.fields[i]) {
                    Some(index) => Action::ResetColor(index as usize),
                    None => self.unhandled(),
                };
                actions.push(action);
                i += 1;
            }
        }
        assert(action_views(actions@) =~= reset_color_actions(self.views(), self.as_unhandled()));
        actions
    }

    /// Acts on a key of the shell integration with a value.
    fn keyed(&self, key: &[u8], value: &[u8]) -> (actions: Vec<Action>)
        ensures
            action_views(actions@) == keyed_actions(key@, value@, self.as_unhandled()),
    {
        if spells(key, "ExitCode") {
            match parse_i32(value) {
                Some(code) => single(Action::ExitCode(code)),
                None => Vec::new(),
            }
        } else if spells(key, "PID") {
            match parse_i32(value) {
                Some(pid) => single(Action::Pid(pid)),
                None => Vec::new(),
            }
        } else {
            match utf8_text(value) {
                Some(text) => match action_for_text(key, text) {
                    Some(action) => single(action),
                    None => single(self.unhandled()),
                },
                None => match action_for_text(key, "") {
                    Some(_) => Vec::new(),
                    None => single(self.unhandled()),
                },
            }
        }
    }

    /// Acts on a field of the shell integration.
    fn shell(&self, field: &[u8]) -> (actions: Vec<Action>)
        ensures
            action_views(actions@) == shell_actions(field@, self.as_unhandled()),
    {
        if spells(field, "NewCmd") {
            let command: String = String::new();
            return single(Action::NewCmd(command));
        } else if spells(field, "StartPrompt") {
            return single(Action::StartPrompt);
        } else if spells(field, "EndPrompt") {
            return single(Action::EndPrompt);
        } else if spells(field, "PreExec") {
            return single(Action::PreExec);
        }
        proof {
            field@.index_of_first_ensures('=' as u8);
        }
        let mut eq: usize = 0;
        while eq < field.len() && field[eq] != '=' as u8
            invariant
                eq <= field@.len(),
                forall|j: int| 0 <= j < eq ==> field@[j] != '=' as u8,
            decreases field@.len() - eq,
        {
            eq += 1;
        }
        if eq == field.len() {
            return Vec::new();
        }
        assert(field@.contains('=' as u8));
        assert(field@.index_of_first('=' as u8) == Some(eq as int));
        if eq + 1 == field.len() {
            return single(self.unhandled());
        }
        assert(field@.take(eq as int) =~= field@.subrange(0, eq as int));
        assert(field@.skip(eq + 1) =~= field@.subrange(eq + 1, field@.len() as int));
        self.keyed(&field[0..eq], &field[eq + 1..field.len()])
    }
}

/// The action for a key of the shell integration that comes with a text.
fn action_for_text(key: &[u8], text: &str) -> (action: Option<Action>)
    ensures
        action is Some <==> text_action(key@, text@) is Some,
        action matches Some(a) ==> text_action(key@, text@) == Some(a@),
{
    let text: String = text.to_owned();
    if spells(key, "Dir") {
        Some(Action::Dir(text))
    } else if spells(key, "ShellPath") {
        Some(Action::ShellPath(text))
    } else if spells(key, "WSLDistro") {
        Some(Action::WslDistro(text))
    } else if spells(key, "Shell") {
        Some(Action::Shell(text))
    } else if spells(key, "FishSuggestionColor") {
        Some(Action::FishSuggestionColor(text))
    } else if spells(key, "ZshAutosuggestionColor") {
        Some(Action::ZshSuggestionColor(text))
    } else if spells(key, "FigAutosuggestionColor") {
        Some(Action::FigSuggestionColor(text))
    } else if spells(key, "NuHintColor") {
        Some(Action::NuHintColor(text))
    } else if spells(key, "TTY") {
        Some(Action::Tty(text))
    } else if spells(key, "User") {
        Some(Action::Username(text))
    } else if spells(key, "Log") {
        Some(Action::Log(text))
    } else if spells(key, "NewCmd") {
        Some(Action::NewCmd(text))
    } else if spells(key, "OSCLock") {
        Some(Action::OscLock(text))
    } else if spells(key, "OSCUnlock") {
        Some(Action::OscUnlock(text))
    } else {
        None
    }
}

/// The actions that an operating system command asks for.
pub fn osc_dispatch(fields: &[&[u8]], bell_terminated: bool) -> (actions: Vec<Action>)
    ensures
        action_views(actions@) == osc_actions(slice_views(fields@), bell_terminated),
{
    let osc = Osc { fields, bell_terminated };
    if fields.len() == 0 || fields[0].len() == 0 {
        return Vec::new();
    }
    let code: &[u8] = fields[0];
    assert(code@ == slice_views(fields@)[0]);
    if spells(code, "0") || spells(code, "2") {
        if fields.len() >= 2 {
            single(Action::SetTitle(Some(join_texts(fields, 1, ";"))))
        } else {
            single(osc.unhandled())
        }
    } else if spells(code, "4") {
        single(osc.indexed_color())
    } else if spells(code, "10") || spells(code, "11") || spells(code, "12") {
        let first: usize = if spells(code, "10") {
            NamedColor::Foreground.index()
        } else if spells(code, "11") {
            NamedColor::Background.index()
        } else {
            NamedColor::Cursor.index()
        };
        if fields.len() >= 2 {
            osc.dynamic_colors(first)
        } else {
            single(osc.unhandled())
        }
    } else if spells(code, "50") {
        single(osc.cursor_shape())
    } else if spells(code, "104") {
        osc.reset_colors()
    } else if spells(code, "110") {
        single(Action::ResetColor(NamedColor::Foreground.index()))
    } else if spells(code, "111") {
        single(Action::ResetColor(NamedColor::Background.index()))
    } else if spells(code, "112") {
        single(Action::ResetColor(NamedColor::Cursor.index()))
    } else if spells(code, "697") {
        if fields.len() >= 2 {
            osc.shell(fields[1])
        } else {
            Vec::new()
        }
    } else {
        single(osc.unhandled())
    }
}

/// A command that sets the colors of the foreground, the background and the cursor sets none
/// besides these three, each of them at most once.
pub proof fn law_dynamic_colors_are_set_once(
    fields: Seq<Seq<u8>>,
    first: int,
    unhandled: ActionView,
    i: int,
    j: int,
)
    requires
        NamedColor::Foreground.slot() <= first <= NamedColor::Cursor.slot(),
        !(unhandled is SetColor),
        0 <= i < j < dynamic_color_actions(fields, first, unhandled).len(),
    ensures
        dynamic_color_actions(fields, first, unhandled)[i] matches ActionView::SetColor(index, _)
            ==> NamedColor::Foreground.slot() <= index <= NamedColor::Cursor.slot(),
        dynamic_color_actions(fields, first, unhandled)[j] matches ActionView::SetColor(index, _)
            ==> NamedColor::Foreground.slot() <= index <= NamedColor::Cursor.slot(),
        dynamic_color_actions(fields, first, unhandled)[i] matches ActionView::SetColor(a, _)
            ==> dynamic_color_actions(fields, first, unhandled)[j] matches ActionView::SetColor(b, _)
            ==> a != b,
{
}

/// A command without a field resets every color of the palette, and no other color.
pub proof fn law_reset_without_field_resets_the_palette(
    fields: Seq<Seq<u8>>,
    bell_terminated: bool,
    index: usize,
)
    requires
        fields == seq!["104".spec_bytes()],
    ensures
        osc_actions(fields, bell_terminated).contains(ActionView::ResetColor(index)) <==> index
            < 256,
{
    reveal_strlit("0");
    reveal_strlit("2");
    reveal_strlit("4");
    reveal_strlit("10");
    reveal_strlit("11");
    reveal_strlit("12");
    reveal_strlit("50");
    reveal_strlit("104");
    assert(is_ascii("0") && is_ascii("2") && is_ascii("4") && is_ascii("10") && is_ascii("11"));
    assert(is_ascii("12") && is_ascii("50") && is_ascii("104"));
    assert("104".spec_bytes()[2] == '4' as u8 && "104".spec_bytes().len() == 3);
    let actions = osc_actions(fields, bell_terminated);
    assert(actions.len() == 256);
    if index < 256 {
        assert(actions[index as int] == ActionView::ResetColor(index));
    }
}

} // verus!
