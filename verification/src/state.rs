//! What a processor remembers from one event to the next, and how it responds to an event.

use vstd::prelude::*;

use std::time::Instant;

use crate::action::{action_views, single, Action, ActionView};
use crate::bytes::{as_slices, to_bytes};
use crate::clock::{deadline, deadline_after};
use crate::control::{control_action, execute};
use crate::csi::{csi_actions, csi_dispatch};
use crate::esc::{esc_actions, esc_dispatch};
use crate::event::{Event, EventView};
use crate::osc::{osc_actions, osc_dispatch};
use crate::params::ParamList;

verus! {

/// Maximum time before a synchronized update is aborted, in milliseconds.
pub const SYNC_UPDATE_TIMEOUT: u64 = 150;

/// Maximum number of bytes read in one synchronized update (2MiB).
pub const SYNC_BUFFER_SIZE: usize = 0x20_0000;

/// Pending device control string.
#[derive(Debug, Clone, Copy, PartialEq, Eq, Structural)]
pub enum Dcs {
    /// Begin of the synchronized update.
    SyncStart,
    /// End of the synchronized update.
    SyncEnd,
}

/// State for synchronized terminal updates.
#[derive(Debug)]
pub struct SyncState {
    /// Expiration time of the synchronized update.
    pub timeout: Option<Instant>,
    /// Synchronization string waiting for its termination sequence.
    pub pending_dcs: Option<Dcs>,
    /// Bytes read during the synchronized update.
    pub buffer: Vec<u8>,
}

/// Internal state of a processor.
#[derive(Debug)]
pub struct ProcessorState {
    /// Last processed character for repetition.
    pub preceding_char: Option<char>,
    /// Device control string waiting for termination. Once a string has started a synchronized
    /// update, this is the one that ends it.
    pub dcs: Option<Dcs>,
    /// State for synchronized terminal updates.
    pub sync_state: SyncState,
}

/// A [`ProcessorState`] without the time at which a synchronized update expires.
#[verifier::ext_equal]
pub struct StateView {
    pub preceding_char: Option<char>,
    pub dcs: Option<Dcs>,
    /// Whether a synchronized update is going on.
    pub syncing: bool,
    pub pending_dcs: Option<Dcs>,
    pub buffer: Seq<u8>,
}

/// Whether a device control string is about synchronized updates.
pub open spec fn is_sync_string(intermediates: Seq<u8>, action: char) -> bool {
    action == 's' && intermediates == seq!['=' as u8]
}

/// Whether the parameters of a device control string about synchronized updates ask for the
/// start of one.
pub open spec fn asks_for_start(params: Seq<Seq<u16>>) -> bool {
    params.len() > 0 && params[0][0] == 1
}

impl StateView {
    /// The state that a processor begins with.
    pub open spec fn initial() -> StateView {
        StateView {
            preceding_char: None,
            dcs: None,
            syncing: false,
            pending_dcs: None,
            buffer: seq![],
        }
    }

    /// Whether an event starts a synchronized update.
    pub open spec fn starts_sync(self, event: EventView) -> bool {
        event is Unhook && self.dcs == Some(Dcs::SyncStart)
    }

    /// The state after an event.
    pub open spec fn after(self, event: EventView) -> StateView {
        match event {
            EventView::Print(c) => StateView { preceding_char: Some(c), ..self },
            EventView::Hook { params, intermediates, action, .. } => if is_sync_string(
                intermediates,
                action,
            ) && asks_for_start(params) {
                StateView { dcs: Some(Dcs::SyncStart), ..self }
            } else {
                self
            },
            EventView::Unhook => if self.starts_sync(event) {
                StateView { dcs: Some(Dcs::SyncEnd), syncing: true, ..self }
            } else {
                self
            },
            _ => self,
        }
    }

    /// The actions that an event asks for.
    pub open spec fn actions(self, event: EventView) -> Seq<ActionView> {
        match event {
            EventView::Print(c) => seq![ActionView::Input(c)],
            EventView::Execute(byte) => seq![control_action(byte)],
            EventView::Hook { params, intermediates, ignore, action } => if is_sync_string(
                intermediates,
                action,
            ) {
                seq![]
            } else {
                seq![ActionView::UnhandledHook(params, intermediates, ignore, action)]
            },
            EventView::Put(byte) => seq![ActionView::UnhandledPut(byte)],
            EventView::Unhook => if self.dcs is Some {
                seq![]
            } else {
                seq![ActionView::UnhandledUnhook]
            },
            EventView::OscDispatch { fields, bell_terminated } => osc_actions(
                fields,
                bell_terminated,
            ),
            EventView::CsiDispatch { params, intermediates, ignore, action } => csi_actions(
                self.preceding_char,
                params,
                intermediates,
                ignore,
                action,
            ),
            EventView::EscDispatch { intermediates, ignore, byte } => esc_actions(
                intermediates,
                ignore,
                byte,
            ),
        }
    }

    /// The state after events, one behind the other.
    pub open spec fn after_all(self, events: Seq<EventView>) -> StateView
        decreases events.len(),
    {
        if events.len() == 0 {
            self
        } else {
            self.after_all(events.drop_last()).after(events.last())
        }
    }

    /// The actions that events ask for, one behind the other.
    pub open spec fn actions_all(self, events: Seq<EventView>) -> Seq<ActionView>
        decreases events.len(),
    {
        if events.len() == 0 {
            seq![]
        } else {
            self.actions_all(events.drop_last()) + self.after_all(events.drop_last()).actions(
                events.last(),
            )
        }
    }
}

/// Whether `timeout` is an expiration time that a synchronized update gets when it is started
/// or extended: it is counted from a time that the clock gave.
pub open spec fn is_new_timeout(timeout: Option<Instant>) -> bool {
    exists|now: Instant|
        call_ensures(Instant::now, (), now) && timeout == Some(
            #[trigger] deadline(now, SYNC_UPDATE_TIMEOUT),
        )
}

impl SyncState {
    /// Starts or extends the synchronized update at the time `now`.
    pub fn restart_at(&mut self, now: Instant)
        ensures
            *final(self) == (SyncState {
                timeout: Some(deadline(now, SYNC_UPDATE_TIMEOUT)),
                ..*old(self)
            }),
    {
        self.timeout = Some(deadline_after(now, SYNC_UPDATE_TIMEOUT));
    }

    /// Starts or extends the synchronized update.
    pub fn restart(&mut self)
        ensures
            is_new_timeout(final(self).timeout),
            *final(self) == (SyncState { timeout: final(self).timeout, ..*old(self) }),
    {
        let now: Instant = Instant::now();
        self.restart_at(now);
        assert(self.timeout == Some(deadline(now, SYNC_UPDATE_TIMEOUT)));
    }
}

impl Default for SyncState {
    fn default() -> (state: SyncState)
        ensures
            state.timeout is None,
            state.pending_dcs is None,
            state.buffer@ == Seq::<u8>::empty(),
    {
        SyncState { buffer: Vec::with_capacity(SYNC_BUFFER_SIZE), pending_dcs: None, timeout: None }
    }
}

impl View for ProcessorState {
    type V = StateView;

    open spec fn view(&self) -> StateView {
        StateView {
            preceding_char: self.preceding_char,
            dcs: self.dcs,
            syncing: self.sync_state.timeout is Some,
            pending_dcs: self.sync_state.pending_dcs,
            buffer: self.sync_state.buffer@,
        }
    }
}

impl Default for ProcessorState {
    fn default() -> (state: ProcessorState)
        ensures
            state@ == StateView::initial(),
    {
        let sync_state: SyncState = SyncState::default();
        ProcessorState { preceding_char: None, dcs: None, sync_state }
    }
}

impl ProcessorState {
    /// Responds to a character.
    pub fn print(&mut self, c: char) -> (actions: Vec<Action>)
        ensures
            action_views(actions@) == seq![ActionView::Input(c)],
            *final(self) == (ProcessorState { preceding_char: Some(c), ..*old(self) }),
    {
        self.preceding_char = Some(c);
        single(Action::Input(c))
    }

    /// Responds to the first part of a device control string.
    pub fn hook(
        &mut self,
        params: &ParamList,
        intermediates: &[u8],
        ignore: bool,
        action: char,
    ) -> (actions: Vec<Action>)
        ensures
            action_views(actions@) == if is_sync_string(intermediates@, action) {
                seq![]
            } else {
                seq![ActionView::UnhandledHook(params@, intermediates@, ignore, action)]
            },
            *final(self) == if is_sync_string(intermediates@, action) && asks_for_start(params@) {
                ProcessorState { dcs: Some(Dcs::SyncStart), ..*old(self) }
            } else {
                *old(self)
            },
    {
        if action == 's' && intermediates.len() == 1 && intermediates[0] == '=' as u8 {
            assert(intermediates@ =~= seq!['=' as u8]);
            // The end of a synchronized update is found by `Processor::advance`.
            if params.count() > 0 && params.value(0) == 1 {
                self.dcs = Some(Dcs::SyncStart);
            }
            Vec::new()
        } else {
            single(
                Action::UnhandledHook(params.clone(), to_bytes(intermediates), ignore, action),
            )
        }
    }

    /// Responds to a byte of a device control string.
    pub fn put(&self, byte: u8) -> (actions: Vec<Action>)
        ensures
            action_views(actions@) == seq![ActionView::UnhandledPut(byte)],
    {
        single(Action::UnhandledPut(byte))
    }

    /// Responds to the end of a device control string.
    pub fn unhook(&mut self) -> (actions: Vec<Action>)
        ensures
            action_views(actions@) == if old(self).dcs is Some {
                seq![]
            } else {
                seq![ActionView::UnhandledUnhook]
            },
            final(self)@ == old(self)@.after(EventView::Unhook),
            if old(self).dcs == Some(Dcs::SyncStart) {
                is_new_timeout(final(self).sync_state.timeout)
            } else {
                final(self).sync_state.timeout == old(self).sync_state.timeout
            },
    {
        match self.dcs {
            Some(Dcs::SyncStart) => {
                // What comes next about synchronized updates is the end of this one.
                self.dcs = Some(Dcs::SyncEnd);
                self.sync_state.restart();
                Vec::new()
            },
            Some(Dcs::SyncEnd) => Vec::new(),
            None => single(Action::UnhandledUnhook),
        }
    }

    /// Takes in an event and gives the actions that it asks for.
    pub fn respond(&mut self, event: &Event) -> (actions: Vec<Action>)
        ensures
            action_views(actions@) == old(self)@.actions(event@),
            final(self)@ == old(self)@.after(event@),
            if old(self)@.starts_sync(event@) {
                is_new_timeout(final(self).sync_state.timeout)
            } else {
                final(self).sync_state.timeout == old(self).sync_state.timeout
            },
    {
        match event {
            Event::Print(c) => self.print(*c),
            Event::Execute(byte) => execute(*byte),
            Event::Hook { params, intermediates, ignore, action } => self.hook(
                params,
                intermediates.as_slice(),
                *ignore,
                *action,
            ),
            Event::Put(byte) => self.put(*byte),
            Event::Unhook => self.unhook(),
            Event::OscDispatch { fields, bell_terminated } => {
                let list: Vec<&[u8]> = as_slices(fields);
                osc_dispatch(list.as_slice(), *bell_terminated)
            },
            Event::CsiDispatch { params, intermediates, ignore, action } => csi_dispatch(
                self.preceding_char,
                params,
                intermediates.as_slice(),
                *ignore,
                *action,
            ),
            Event::EscDispatch { intermediates, ignore, byte } => esc_dispatch(
                intermediates.as_slice(),
                *ignore,
                *byte,
            ),
        }
    }
}

/// The character that a processor remembers for repetition is the last one that was shown.
pub proof fn law_preceding_char_is_last_shown(state: StateView, c: char, events: Seq<EventView>)
    requires
        forall|i: int| 0 <= i < events.len() ==> !((#[trigger] events[i]) is Print),
    ensures
        state.after(EventView::Print(c)).after_all(events).preceding_char == Some(c),
    decreases events.len(),
{
    if events.len() > 0 {
        law_preceding_char_is_last_shown(state, c, events.drop_last());
        assert(events.last() == events[events.len() - 1]);
    }
}

/// The bytes of a device control string leave the state as it is.
proof fn lemma_bytes_keep_state(state: StateView, events: Seq<EventView>)
    requires
        forall|i: int| 0 <= i < events.len() ==> (#[trigger] events[i]) is Put,
    ensures
        state.after_all(events) == state,
    decreases events.len(),
{
    if events.len() > 0 {
        lemma_bytes_keep_state(state, events.drop_last());
        assert(events.last() == events[events.len() - 1]);
    }
}

/// A device control string starts a synchronized update exactly if it asks for one. The end of
/// every other string is passed on as long as there was no update, and has no effect after one.
pub proof fn law_only_start_strings_start_updates(
    state: StateView,
    params: Seq<Seq<u16>>,
    intermediates: Seq<u8>,
    ignore: bool,
    action: char,
    bytes: Seq<EventView>,
)
    requires
        state.dcs != Some(Dcs::SyncStart),
        forall|i: int| 0 <= i < bytes.len() ==> (#[trigger] bytes[i]) is Put,
    ensures
        ({
            let starts = is_sync_string(intermediates, action) && asks_for_start(params);
            let hook = EventView::Hook { params, intermediates, ignore, action };
            let before = state.after(hook).after_all(bytes);
            &&& before.starts_sync(EventView::Unhook) == starts
            &&& before.actions(EventView::Unhook) == if starts || state.dcs == Some(Dcs::SyncEnd) {
                seq![]
            } else {
                seq![ActionView::UnhandledUnhook]
            }
            &&& before.after(EventView::Unhook) == if starts {
                StateView { dcs: Some(Dcs::SyncEnd), syncing: true, ..state }
            } else {
                state
            }
        }),
{
    let hook = EventView::Hook { params, intermediates, ignore, action };
    lemma_bytes_keep_state(state.after(hook), bytes);
    assert(state.dcs is None || state.dcs->0 == Dcs::SyncEnd);
}

} // verus!
