//! Control characters.

use vstd::prelude::*;

use crate::action::{action_views, single, Action, ActionView};
use crate::charset::CharsetIndex;
use crate::C0;

verus! {

/// The action that a control character asks for.
pub open spec fn control_action(byte: u8) -> ActionView {
    if byte == C0::HT {
        ActionView::PutTab(1)
    } else if byte == C0::BS {
        ActionView::Backspace
    } else if byte == C0::CR {
        ActionView::CarriageReturn
    } else if byte == C0::LF || byte == C0::VT || byte == C0::FF {
        ActionView::Linefeed
    } else if byte == C0::BEL {
        ActionView::Bell
    } else if byte == C0::SUB {
        ActionView::Substitute
    } else if byte == C0::SI {
        ActionView::SetActiveCharset(CharsetIndex::G0)
    } else if byte == C0::SO {
        ActionView::SetActiveCharset(CharsetIndex::G1)
    } else {
        ActionView::UnhandledExecute(byte)
    }
}

/// The actions that a control character asks for.
pub fn execute(byte: u8) -> (actions: Vec<Action>)
    ensures
        action_views(actions@) == seq![control_action(byte)],
{
    single(
        if byte == C0::HT {
            Action::PutTab(1)
        } else if byte == C0::BS {
            Action::Backspace
        } else if byte == C0::CR {
            Action::CarriageReturn
        } else if byte == C0::LF || byte == C0::VT || byte == C0::FF {
            Action::Linefeed
        } else if byte == C0::BEL {
            Action::Bell
        } else if byte == C0::SUB {
            Action::Substitute
        } else if byte == C0::SI {
            Action::SetActiveCharset(CharsetIndex::G0)
        } else if byte == C0::SO {
            Action::SetActiveCharset(CharsetIndex::G1)
        } else {
            Action::UnhandledExecute(byte)
        },
    )
}

} // verus!
