//! Control sequences.

use vstd::prelude::*;

use crate::action::{action_views, single, Action, ActionView};
use crate::attr::Attr;
use crate::bytes::to_bytes;
use crate::cursor::{CursorShape, CursorStyle};
use crate::index::{Column, Line};
use crate::mode::{ClearMode, LineClearMode, Mode, TabulationClearMode};
use crate::params::ParamList;
use crate::sgr::{attrs_from_sgr_parameters, sgr_attrs};

verus! {

/// The value of the parameter number `i`, or `default` where it is missing or zero.
pub open spec fn value_or(params: Seq<Seq<u16>>, i: int, default: u16) -> u16 {
    if i < params.len() && params[i][0] != 0 {
        params[i][0]
    } else {
        default
    }
}

/// The marker in front of the parameters, where there is one.
pub open spec fn marker_of(intermediates: Seq<u8>) -> Option<&'static u8> {
    if intermediates.len() == 0 {
        None
    } else {
        Some(&intermediates[0])
    }
}

/// The action for one parameter of a sequence that sets modes, or unsets them.
pub open spec fn mode_action(
    intermediates: Seq<u8>,
    num: u16,
    set: bool,
    unhandled: ActionView,
) -> ActionView {
    match Mode::named(marker_of(intermediates), num) {
        Some(mode) => if set {
            ActionView::SetMode(mode)
        } else {
            ActionView::UnsetMode(mode)
        },
        None => unhandled,
    }
}

/// The action for one attribute of a text.
pub open spec fn attr_action(attr: Option<Attr>, unhandled: ActionView) -> ActionView {
    match attr {
        Some(attr) => ActionView::TerminalAttribute(attr),
        None => unhandled,
    }
}

/// The cursor style with a number, where the outer option tells whether there is one, and
/// the inner one is missing for the default style of the terminal.
pub open spec fn numbered_cursor_style(id: u16) -> Option<Option<CursorStyle>> {
    let blinking = id % 2 == 1;
    if id == 0 {
        Some(None)
    } else if id <= 2 {
        Some(Some(CursorStyle { shape: CursorShape::Block, blinking }))
    } else if id <= 4 {
        Some(Some(CursorStyle { shape: CursorShape::Underline, blinking }))
    } else if id <= 6 {
        Some(Some(CursorStyle { shape: CursorShape::Beam, blinking }))
    } else {
        None
    }
}

/// The actions that a control sequence without intermediates asks for, where `preceding_char`
/// is the character that was shown last.
pub open spec fn plain_csi_actions(
    preceding_char: Option<char>,
    params: Seq<Seq<u16>>,
    action: char,
    unhandled: ActionView,
) -> Seq<ActionView> {
    let first = value_or(params, 0, 1);
    let selector = value_or(params, 0, 0);
    match action {
        '@' => seq![ActionView::InsertBlank(first as usize)],
        'A' => seq![ActionView::MoveUp(first as usize)],
        'B' | 'e' => seq![ActionView::MoveDown(first as usize)],
        'b' => match preceding_char {
            Some(c) => Seq::new(first as nat, |i: int| ActionView::Input(c)),
            None => seq![],
        },
        'C' | 'a' => seq![ActionView::MoveForward(Column(first as usize))],
        'D' => seq![ActionView::MoveBackward(Column(first as usize))],
        'd' => seq![ActionView::GotoLine(Line((first - 1) as i32))],
        'E' => seq![ActionView::MoveDownAndCr(first as usize)],
        'F' => seq![ActionView::MoveUpAndCr(first as usize)],
        'G' | '`' => seq![ActionView::GotoCol(Column((first - 1) as usize))],
        'g' => seq![
            if selector == 0 {
                ActionView::ClearTabs(TabulationClearMode::Current)
            } else if selector == 3 {
                ActionView::ClearTabs(TabulationClearMode::All)
            } else {
                unhandled
            },
        ],
        'H' | 'f' => seq![
            ActionView::Goto(
                Line((first - 1) as i32),
                Column((value_or(params, 1, 1) - 1) as usize),
            ),
        ],
        'I' => seq![ActionView::MoveForwardTabs(first)],
        'J' => seq![
            if selector == 0 {
                ActionView::ClearScreen(ClearMode::Below)
            } else if selector == 1 {
                ActionView::ClearScreen(ClearMode::Above)
            } else if selector == 2 {
                ActionView::ClearScreen(ClearMode::All)
            } else if selector == 3 {
                ActionView::ClearScreen(ClearMode::Saved)
            } else {
                unhandled
            },
        ],
        'K' => seq![
            if selector == 0 {
                ActionView::ClearLine(LineClearMode::Right)
            } else if selector == 1 {
                ActionView::ClearLine(LineClearMode::Left)
            } else if selector == 2 {
                ActionView::ClearLine(LineClearMode::All)
            } else {
                unhandled
            },
        ],
        'L' => seq![ActionView::InsertBlankLines(first as usize)],
        'M' => seq![ActionView::DeleteLines(first as usize)],
        'm' => if params.len() == 0 {
            seq![ActionView::TerminalAttribute(Attr::Reset)]
        } else {
            sgr_attrs(params).map_values(|attr: Option<Attr>| attr_action(attr, unhandled))
        },
        'P' => seq![ActionView::DeleteChars(first as usize)],
        'r' => seq![
            ActionView::SetScrollingRegion(
                first as usize,
                if value_or(params, 1, 0) == 0 {
                    None
                } else {
                    Some(value_or(params, 1, 0) as usize)
                },
            ),
        ],
        'S' => seq![ActionView::ScrollUp(first as usize)],
        's' => seq![ActionView::SaveCursorPosition],
        'T' => seq![ActionView::ScrollDown(first as usize)],
        't' => seq![
            if first == 22 {
                ActionView::PushTitle
            } else if first == 23 {
                ActionView::PopTitle
            } else {
                unhandled
            },
        ],
        'u' => seq![ActionView::RestoreCursorPosition],
        'X' => seq![ActionView::EraseChars(Column(first as usize))],
        'Z' => seq![ActionView::MoveBackwardTabs(first)],
        _ => seq![unhandled],
    }
}

/// The actions that a control sequence asks for, where `preceding_char` is the character that
/// was shown last.
pub open spec fn csi_actions(
    preceding_char: Option<char>,
    params: Seq<Seq<u16>>,
    intermediates: Seq<u8>,
    has_ignored_intermediates: bool,
    action: char,
) -> Seq<ActionView> {
    let unhandled = ActionView::UnhandledCsiDispatch(
        params,
        intermediates,
        has_ignored_intermediates,
        action,
    );
    if has_ignored_intermediates || intermediates.len() > 1 {
        seq![unhandled]
    } else if action == 'h' || action == 'l' {
        params.map_values(
            |group: Seq<u16>| mode_action(intermediates, group[0], action == 'h', unhandled),
        )
    } else if intermediates.len() == 0 {
        plain_csi_actions(preceding_char, params, action, unhandled)
    } else if action == 'q' && intermediates[0] == ' ' as u8 {
        match numbered_cursor_style(value_or(params, 0, 0)) {
            Some(style) => seq![ActionView::SetCursorStyle(style)],
            None => seq![unhandled],
        }
    } else {
        seq![unhandled]
    }
}

/// A control sequence, as the parser found it.
struct Csi<'a> {
    params: &'a ParamList,
    intermediates: &'a [u8],
    has_ignored_intermediates: bool,
    action: char,
}

impl<'a> Csi<'a> {
    spec fn as_unhandled(self) -> ActionView {
        ActionView::UnhandledCsiDispatch(
            self.params@,
            self.intermediates@,
            self.has_ignored_intermediates,
            self.action,
        )
    }

    /// The action for a sequence that nothing else handles.
    fn unhandled(&self) -> (action: Action)
        ensures
            action@ == self.as_unhandled(),
    {
        Action::UnhandledCsiDispatch(
            self.params.clone(),
            to_bytes(self.intermediates),
            self.has_ignored_intermediates,
            self.action,
        )
    }

    /// The value of the parameter number `i`, or `default` where it is missing or zero.
    fn param_or(&self, i: usize, default: u16) -> (value: u16)
        ensures
            value == value_or(self.params@, i as int, default),
    {
        if i < self.params.count() && self.params.value(i) != 0 {
            self.params.value(i)
        } else {
            default
        }
    }

    /// Sets the modes that the parameters name, or unsets them.
    fn modes(&self, set: bool) -> (actions: Vec<Action>)
        ensures
            action_views(actions@) == self.params@.map_values(
                |group: Seq<u16>|
                    mode_action(self.intermediates@, group[0], set, self.as_unhandled()),
            ),
    {
        let mut actions: Vec<Action> = Vec::new();
        let mut i: usize = 0;
        while i < self.params.count()
            invariant
                i <= self.params@.len(),
                actions@.len() == i,
                forall|j: int|
                    0 <= j < i ==> (#[trigger] actions@[j])@ == mode_action(
                        self.intermediates@,
                        self.params@[j][0],
                        set,
                        self.as_unhandled(),
                    ),
            decreases self.params@.len() - i,
        {
            let action = match Mode::from_primitive(self.intermediates.first(), self.params.value(i)) {
                Some(mode) => if set {
                    Action::SetMode(mode)
                } else {
                    Action::UnsetMode(mode)
                },
                None => self.unhandled(),
            };
            actions.push(action);
            i += 1;
        }
        assert(action_views(actions@) =~= self.params@.map_values(
            |group: Seq<u16>| mode_action(self.intermediates@, group[0], set, self.as_unhandled()),
        ));
        actions
    }

    /// Sets the text attributes that the parameters stand for.
    fn attributes(&self) -> (actions: Vec<Action>)
        ensures
            action_views(actions@) == sgr_attrs(self.params@).map_values(
                |attr: Option<Attr>| attr_action(attr, self.as_unhandled()),
            ),
    {
        let attrs: Vec<Option<Attr>> = attrs_from_sgr_parameters(self.params);
        let mut actions: Vec<Action> = Vec::new();
        let mut i: usize = 0;
        while i < attrs.len()
            invariant
                i <= attrs@.len(),
                actions@.len() == i,
                forall|j: int|
                    0 <= j < i ==> (#[trigger] actions@[j])@ == attr_action(
                        attrs@[j],
                        self.as_unhandled(),
                    ),
            decreases attrs@.len() - i,
        {
            let action = match attrs[i] {
                Some(attr) => Action::TerminalAttribute(attr),
                None => self.unhandled(),
            };
            actions.push(action);
            i += 1;
        }
        assert(action_views(actions@) =~= attrs@.map_values(
            |attr: Option<Attr>| attr_action(attr, self.as_unhandled()),
        ));
        actions
    }

    /// Shows a character again.
    fn repeat(&self, c: char, count: u16) -> (actions: Vec<Action>)
        ensures
            action_views(actions@) == Seq::new(count as nat, |i: int| ActionView::Input(c)),
    {
        let mut actions: Vec<Action> = Vec::new();
        let mut i: u16 = 0;
        while i < count
            invariant
                i <= count,
                actions@.len() == i,
                forall|j: int| 0 <= j < i ==> (#[trigger] actions@[j])@ == ActionView::Input(c),
            decreases count - i,
        {
            actions.push(Action::Input(c));
            i += 1;
        }
        assert(action_views(actions@) =~= Seq::new(count as nat, |i: int| ActionView::Input(c)));
        actions
    }

    /// The action of a sequence without intermediates that asks for one action.
    fn plain(&self) -> (action: Action)
        requires
            self.action != 'b',
            self.action != 'm',
        ensures
            forall|preceding_char: Option<char>|
                plain_csi_actions(
                    preceding_char,
                    self.params@,
                    self.action,
                    self.as_unhandled(),
                ) == seq![action@],
    {
        let first: u16 = self.param_or(0, 1);
        let selector: u16 = self.param_or(0, 0);
        match self.action {
            '@' => Action::InsertBlank(first as usize),
            'A' => Action::MoveUp(first as usize),
            'B' | 'e' => Action::MoveDown(first as usize),
            'C' | 'a' => Action::MoveForward(Column(first as usize)),
            'D' => Action::MoveBackward(Column(first as usize)),
            'd' => Action::GotoLine(Line(first as i32 - 1)),
            'E' => Action::MoveDownAndCr(first as usize),
            'F' => Action::MoveUpAndCr(first as usize),
            'G' | '`' => Action::GotoCol(Column(first as usize - 1)),
            'g' => match selector {
                0 => Action::ClearTabs(TabulationClearMode::Current),
                3 => Action::ClearTabs(TabulationClearMode::All),
                _ => self.unhandled(),
            },
            'H' | 'f' => {
                let y: i32 = first as i32;
                let x: usize = self.param_or(1, 1) as usize;
                Action::Goto(Line(y - 1), Column(x - 1))
            },
            'I' => Action::MoveForwardTabs(first),
            'J' => match selector {
                0 => Action::ClearScreen(ClearMode::Below),
                1 => Action::ClearScreen(ClearMode::Above),
                2 => Action::ClearScreen(ClearMode::All),
                3 => Action::ClearScreen(ClearMode::Saved),
                _ => self.unhandled(),
            },
            'K' => match selector {
                0 => Action::ClearLine(LineClearMode::Right),
                1 => Action::ClearLine(LineClearMode::Left),
                2 => Action::ClearLine(LineClearMode::All),
                _ => self.unhandled(),
            },
            'L' => Action::InsertBlankLines(first as usize),
            'M' => Action::DeleteLines(first as usize),
            'P' => Action::DeleteChars(first as usize),
            'r' => {
                let bottom: u16 = self.param_or(1, 0);
                Action::SetScrollingRegion(
                    first as usize,
                    if bottom == 0 {
                        None
                    } else {
                        Some(bottom as usize)
                    },
                )
            },
            'S' => Action::ScrollUp(first as usize),
            's' => Action::SaveCursorPosition,
            'T' => Action::ScrollDown(first as usize),
            't' => match first {
                22 => Action::PushTitle,
                23 => Action::PopTitle,
                _ => self.unhandled(),
            },
            'u' => Action::RestoreCursorPosition,
            'X' => Action::EraseChars(Column(first as usize)),
            'Z' => Action::MoveBackwardTabs(first),
            _ => self.unhandled(),
        }
    }

    /// Sets the cursor style that the first parameter numbers.
    fn cursor_style(&self) -> (action: Action)
        ensures
            action@ == match numbered_cursor_style(value_or(self.params@, 0, 0)) {
                Some(style) => ActionView::SetCursorStyle(style),
                None => self.as_unhandled(),
            },
    {
        let id: u16 = self.param_or(0, 0);
        let shape = match id {
            0 => None,
            1 | 2 => Some(CursorShape::Block),
            3 | 4 => Some(CursorShape::Underline),
            5 | 6 => Some(CursorShape::Beam),
            _ => return self.unhandled(),
        };
        match shape {
            Some(shape) => Action::SetCursorStyle(Some(CursorStyle { shape, blinking: id % 2 == 1 })),
            None => Action::SetCursorStyle(None),
        }
    }
}

/// The actions that a control sequence asks for, where `preceding_char` is the character that
/// was shown last.
pub fn csi_dispatch(
    preceding_char: Option<char>,
    params: &ParamList,
    intermediates: &[u8],
    has_ignored_intermediates: bool,
    action: char,
) -> (actions: Vec<Action>)
    ensures
        action_views(actions@) == csi_actions(
            preceding_char,
            params@,
            intermediates@,
            has_ignored_intermediates,
            action,
        ),
{
    let csi = Csi { params, intermediates, has_ignored_intermediates, action };
    if has_ignored_intermediates || intermediates.len() > 1 {
        return single(csi.unhandled());
    }
    match action {
        'h' => return csi.modes(true),
        'l' => return csi.modes(false),
        _ => {},
    }
    if intermediates.len() == 0 {
        match action {
            'b' => match preceding_char {
                Some(c) => csi.repeat(c, csi.param_or(0, 1)),
                None => Vec::new(),
            },
            'm' => if params.is_empty() {
                single(Action::TerminalAttribute(Attr::Reset))
            } else {
                csi.attributes()
            },
            _ => single(csi.plain()),
        }
    } else if action == 'q' && intermediates[0] == ' ' as u8 {
        single(csi.cursor_style())
    } else {
        single(csi.unhandled())
    }
}

/// A parameter of zero asks for the same as no parameter at all, in every sequence without
/// intermediates but the one that sets and unsets modes.
pub proof fn law_zero_is_the_default(
    preceding_char: Option<char>,
    action: char,
    unhandled: ActionView,
)
    ensures
        plain_csi_actions(preceding_char, seq![seq![0u16]], action, unhandled) == plain_csi_actions(
            preceding_char,
            seq![],
            action,
            unhandled,
        ),
{
    if action == 'm' {
        let params = seq![seq![0u16]];
        assert(sgr_attrs(params.skip(1)) =~= seq![]);
        assert(sgr_attrs(params) =~= seq![Some(Attr::Reset)]);
        assert(plain_csi_actions(preceding_char, params, action, unhandled) =~= seq![
            ActionView::TerminalAttribute(Attr::Reset),
        ]);
    }
}

/// What `CSI .. h` sets, `CSI .. l` unsets: the two name the same modes, parameter by
/// parameter.
pub proof fn law_same_modes_are_set_and_unset(
    preceding_char: Option<char>,
    params: Seq<Seq<u16>>,
    intermediates: Seq<u8>,
    mode: Mode,
    i: int,
)
    requires
        intermediates.len() <= 1,
        0 <= i < params.len(),
    ensures
        csi_actions(preceding_char, params, intermediates, false, 'h')[i] == ActionView::SetMode(mode)
            <==> csi_actions(preceding_char, params, intermediates, false, 'l')[i]
            == ActionView::UnsetMode(mode),
        csi_actions(preceding_char, params, intermediates, false, 'h')[i] == ActionView::SetMode(mode)
            <==> Mode::named(marker_of(intermediates), params[i][0]) == Some(mode),
{
}

/// A sequence that repeats the last character shows it as often as the first parameter says.
pub proof fn law_repetition_count(c: char, params: Seq<Seq<u16>>)
    ensures
        csi_actions(Some(c), params, seq![], false, 'b').len() == value_or(params, 0, 1),
        forall|i: int|
            0 <= i < value_or(params, 0, 1) ==> #[trigger] csi_actions(
                Some(c),
                params,
                seq![],
                false,
                'b',
            )[i] == ActionView::Input(c),
        csi_actions(None, params, seq![], false, 'b').len() == 0,
{
}

} // verus!
