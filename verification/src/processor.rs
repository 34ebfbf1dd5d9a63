//! The processor: from the bytes of the stream to the calls of a handler.

use vstd::prelude::*;

use std::time::Instant;

use crate::action::{action_views, lemma_performed_concat, perform_all, performed, ActionView};
use crate::bytes::bytes_equal;
use crate::event::{event_views, Event};
use crate::handler::Handler;
use crate::parser::{fed, feed, parser_events};
use crate::state::{is_new_timeout, Dcs, ProcessorState, StateView, SYNC_BUFFER_SIZE};
use crate::sync::{
    law_bytes_keep_processor_well_formed, law_stop_keeps_processor_well_formed,
    lemma_events_keep_sync,
};
use crate::C0;

verus! {

/// Number of bytes in a synchronization string before the passthrough parameters.
pub const SYNC_ESCAPE_START_LEN: usize = 5;

/// The bytes with which a string begins that starts a synchronized update.
pub open spec fn sync_start_escape() -> Seq<u8> {
    seq![C0::ESC, 'P' as u8, '=' as u8, '1' as u8, 's' as u8]
}

/// The bytes with which a string begins that ends a synchronized update.
pub open spec fn sync_end_escape() -> Seq<u8> {
    seq![C0::ESC, 'P' as u8, '=' as u8, '2' as u8, 's' as u8]
}

/// Whether a byte breaks a synchronization string off.
pub open spec fn cancels_string(byte: u8) -> bool {
    byte == C0::CAN || byte == C0::SUB || 0x80 <= byte <= 0x9f
}

/// What a [`Processor`] holds, without the time at which a synchronized update expires.
#[verifier::ext_equal]
pub struct ProcessorView {
    pub state: StateView,
    /// The bytes that the parser has been fed.
    pub fed: Seq<u8>,
}

impl ProcessorView {
    /// The processor after its parser was fed a byte.
    pub open spec fn parsed(self, byte: u8) -> ProcessorView {
        ProcessorView {
            state: self.state.after_all(parser_events(self.fed, byte)),
            fed: self.fed.push(byte),
        }
    }

    /// The actions that come of feeding a byte to the parser.
    pub open spec fn parse_actions(self, byte: u8) -> Seq<ActionView> {
        self.state.actions_all(parser_events(self.fed, byte))
    }

    /// The processor after its parser was fed bytes.
    pub open spec fn parsed_all(self, bytes: Seq<u8>) -> ProcessorView
        decreases bytes.len(),
    {
        if bytes.len() == 0 {
            self
        } else {
            self.parsed_all(bytes.drop_last()).parsed(bytes.last())
        }
    }

    /// The actions that come of feeding bytes to the parser.
    pub open spec fn parse_all_actions(self, bytes: Seq<u8>) -> Seq<ActionView>
        decreases bytes.len(),
    {
        if bytes.len() == 0 {
            seq![]
        } else {
            self.parse_all_actions(bytes.drop_last()) + self.parsed_all(
                bytes.drop_last(),
            ).parse_actions(bytes.last())
        }
    }

    /// The processor after the end of a synchronized update: the parser was fed the bytes that
    /// were held back. What they say about synchronized updates has no effect.
    pub open spec fn stopped(self) -> ProcessorView {
        let replayed = self.parsed_all(self.state.buffer);
        ProcessorView {
            state: StateView {
                syncing: false,
                pending_dcs: None,
                buffer: seq![],
                ..replayed.state
            },
            ..replayed
        }
    }

    /// The actions that come of the end of a synchronized update.
    pub open spec fn stop_actions(self) -> Seq<ActionView> {
        self.parse_all_actions(self.state.buffer)
    }

    /// The processor with a byte held back.
    pub open spec fn buffered(self, byte: u8) -> ProcessorView {
        ProcessorView {
            state: StateView { buffer: self.state.buffer.push(byte), ..self.state },
            ..self
        }
    }

    /// The processor with another synchronization string pending.
    pub open spec fn with_pending(self, pending_dcs: Option<Dcs>) -> ProcessorView {
        ProcessorView { state: StateView { pending_dcs, ..self.state }, ..self }
    }

    /// The synchronization string that has begun with the last byte of the buffer. A buffer
    /// with room for one more byte counts as the beginning of a string that ends the update.
    pub open spec fn begun_string(self) -> Option<Dcs> {
        let buffer = self.state.buffer;
        if sync_start_escape().is_suffix_of(buffer) {
            Some(Dcs::SyncStart)
        } else if sync_end_escape().is_suffix_of(buffer) || buffer.len() >= SYNC_BUFFER_SIZE - 1 {
            Some(Dcs::SyncEnd)
        } else {
            None
        }
    }

    /// Whether a byte is the last one that the buffer has room for.
    pub open spec fn fills_buffer(self, byte: u8) -> bool {
        self.state.buffer.push(byte).len() >= SYNC_BUFFER_SIZE
    }

    /// Whether a byte terminates a pending synchronization string.
    pub open spec fn terminates(self, dcs: Dcs, byte: u8) -> bool {
        self.state.pending_dcs == Some(dcs) && byte == C0::ESC
    }

    /// Whether a byte ends the synchronized update.
    pub open spec fn ends_sync(self, byte: u8) -> bool {
        self.state.syncing && (self.fills_buffer(byte) || self.terminates(Dcs::SyncEnd, byte))
    }

    /// Whether a byte extends the synchronized update.
    pub open spec fn extends_sync(self, byte: u8) -> bool {
        self.state.syncing && !self.fills_buffer(byte) && self.terminates(Dcs::SyncStart, byte)
    }

    /// The processor after a byte behind the start of a synchronization string.
    pub open spec fn pending_advanced(self, byte: u8) -> ProcessorView {
        if self.terminates(Dcs::SyncEnd, byte) {
            self.stopped()
        } else if byte == C0::ESC || cancels_string(byte) {
            self.with_pending(None)
        } else {
            self
        }
    }

    /// The actions that come of a byte behind the start of a synchronization string.
    pub open spec fn pending_actions(self, byte: u8) -> Seq<ActionView> {
        if self.terminates(Dcs::SyncEnd, byte) {
            self.stop_actions()
        } else {
            seq![]
        }
    }

    /// The processor after a byte of the stream.
    pub open spec fn advanced(self, byte: u8) -> ProcessorView {
        if !self.state.syncing {
            self.parsed(byte)
        } else if self.fills_buffer(byte) {
            self.buffered(byte).stopped()
        } else if self.state.pending_dcs is None {
            self.buffered(byte).with_pending(self.buffered(byte).begun_string())
        } else {
            self.buffered(byte).pending_advanced(byte)
        }
    }

    /// The actions that come of a byte of the stream.
    pub open spec fn advance_actions(self, byte: u8) -> Seq<ActionView> {
        if !self.state.syncing {
            self.parse_actions(byte)
        } else if self.fills_buffer(byte) {
            self.buffered(byte).stop_actions()
        } else if self.state.pending_dcs is None {
            seq![]
        } else {
            self.buffered(byte).pending_actions(byte)
        }
    }

    /// The processor after bytes of the stream.
    pub open spec fn advanced_all(self, bytes: Seq<u8>) -> ProcessorView
        decreases bytes.len(),
    {
        if bytes.len() == 0 {
            self
        } else {
            self.advanced_all(bytes.drop_last()).advanced(bytes.last())
        }
    }

    /// The actions that come of bytes of the stream.
    pub open spec fn advance_all_actions(self, bytes: Seq<u8>) -> Seq<ActionView>
        decreases bytes.len(),
    {
        if bytes.len() == 0 {
            seq![]
        } else {
            self.advance_all_actions(bytes.drop_last()) + self.advanced_all(
                bytes.drop_last(),
            ).advance_actions(bytes.last())
        }
    }

    /// Whether bytes are held back and synchronization strings are pending only during a
    /// synchronized update, and no more bytes are held back than one update may have.
    pub open spec fn well_formed(self) -> bool {
        &&& !self.state.syncing ==> self.state.buffer.len() == 0
        &&& !self.state.syncing ==> self.state.pending_dcs is None
        &&& self.state.buffer.len() <= SYNC_BUFFER_SIZE
    }
}

/// What makes `vte::Parser` and [`Handler`] meet: it passes the events that the parser finds
/// on to the handler.
struct Performer<'a, H: Handler> {
    state: &'a mut ProcessorState,
    handler: &'a mut H,
}

impl<'a, H: Handler + 'a> Performer<'a, H> {
    /// Create a performer.
    #[inline]
    fn new<'b>(state: &'b mut ProcessorState, handler: &'b mut H) -> (performer: Performer<'b, H>)
        ensures
            *performer.state == *old(state),
            *final(performer.state) == *final(state),
            *performer.handler == *old(handler),
            *final(performer.handler) == *final(handler),
    {
        Performer { state, handler }
    }

    /// Takes in events and makes the calls that they ask for.
    fn perform(self, events: &Vec<Event>)
        ensures
            final(self.state)@ == old(self.state)@.after_all(event_views(events@)),
            final(self.state).sync_state.timeout == old(self.state).sync_state.timeout
                || is_new_timeout(final(self.state).sync_state.timeout),
            exists|calls: Seq<&mut H>, run: Seq<H>|
                #[trigger] performed(
                    *old(self.handler),
                    calls,
                    run,
                    old(self.state)@.actions_all(event_views(events@)),
                    *final(self.handler),
                ) && forall|i: int| 0 <= i < calls.len() ==> *final(#[trigger] calls[i]) == run[i],
    {
        let Performer { state, handler } = self;
        let ghost all = event_views(events@);
        let ghost state0 = *state;
        let ghost handler0 = *handler;
        let ghost mut done: Seq<ActionView> = seq![];
        let mut next: usize = 0;
        proof {
            assert(all.take(0) =~= seq![]);
            assert(performed(*handler, Seq::<&mut H>::empty(), Seq::<H>::empty(), done, *handler));
        }
        while next < events.len()
            invariant
                next <= events@.len(),
                all == event_views(events@),
                state@ == state0@.after_all(all.take(next as int)),
                state.sync_state.timeout == state0.sync_state.timeout || is_new_timeout(
                    state.sync_state.timeout,
                ),
                done == state0@.actions_all(all.take(next as int)),
                exists|calls: Seq<&mut H>, run: Seq<H>|
                    #[trigger] performed(handler0, calls, run, done, *handler) && forall|i: int|
                        0 <= i < calls.len() ==> *final(#[trigger] calls[i]) == run[i],
            decreases events@.len() - next,
        {
            let ghost before = *handler;
            let ghost (calls1, run1) = choose|calls: Seq<&mut H>, run: Seq<H>|
                #[trigger] performed(handler0, calls, run, done, before) && forall|i: int|
                    0 <= i < calls.len() ==> *final(#[trigger] calls[i]) == run[i];
            let actions = state.respond(&events[next]);
            perform_all(&actions, handler);
            proof {
                let added = action_views(actions@);
                let (calls2, run2) = choose|calls: Seq<&mut H>, run: Seq<H>|
                    #[trigger] performed(before, calls, run, added, *handler) && forall|i: int|
                        0 <= i < calls.len() ==> *final(#[trigger] calls[i]) == run[i];
                lemma_performed_concat(
                    handler0, calls1, run1, done, before,
                    calls2, run2, added, *handler,
                );
                assert(all.take(next + 1).drop_last() =~= all.take(next as int));
                done = done + added;
            }
            next += 1;
        }
        assert(all.take(next as int) =~= all);
    }
}

/// The processor wraps a `vte::Parser` to ultimately call methods on a [`Handler`].
pub struct Processor {
    state: ProcessorState,
    parser: vte::Parser,
}

impl View for Processor {
    type V = ProcessorView;

    closed spec fn view(&self) -> ProcessorView {
        ProcessorView { state: self.state@, fed: fed(self.parser) }
    }
}

impl Default for Processor {
    fn default() -> (processor: Processor)
        ensures
            processor@ == (ProcessorView { state: StateView::initial(), fed: seq![] }),
            processor@.well_formed(),
            processor.timeout() is None,
    {
        Processor { state: ProcessorState::default(), parser: vte::Parser::new() }
    }
}

impl Processor {
    /// The time at which the synchronized update expires.
    pub closed spec fn timeout(self) -> Option<Instant> {
        self.state.sync_state.timeout
    }

    #[inline]
    pub fn new() -> (processor: Processor)
        ensures
            processor@ == (ProcessorView { state: StateView::initial(), fed: seq![] }),
            processor@.well_formed(),
            processor.timeout() is None,
    {
        Self::default()
    }

    /// Feeds a byte to the parser.
    fn parse<H>(&mut self, handler: &mut H, byte: u8) where H: Handler
        ensures
            final(self)@ == old(self)@.parsed(byte),
            final(self).timeout() == old(self).timeout() || is_new_timeout(final(self).timeout()),
            exists|calls: Seq<&mut H>, run: Seq<H>|
                #[trigger] performed(
                    *old(handler),
                    calls,
                    run,
                    old(self)@.parse_actions(byte),
                    *final(handler),
                ) && forall|i: int| 0 <= i < calls.len() ==> *final(#[trigger] calls[i]) == run[i],
    {
        let ghost actions = self@.parse_actions(byte);
        let events: Vec<Event> = feed(&mut self.parser, byte);
        assert(self.state@.actions_all(event_views(events@)) == actions);
        let performer = Performer::new(&mut self.state, handler);
        performer.perform(&events);
    }

    /// Process a new byte from the stream.
    #[inline]
    pub fn advance<H>(&mut self, handler: &mut H, byte: u8) where H: Handler
        ensures
            final(self)@ == old(self)@.advanced(byte),
            old(self)@.well_formed() ==> final(self)@.well_formed(),
            final(self).timeout() is Some <==> final(self)@.state.syncing,
            final(self)@.state.syncing ==> if old(self)@.state.syncing && !old(self)@.extends_sync(
                byte,
            ) {
                final(self).timeout() == old(self).timeout()
            } else {
                is_new_timeout(final(self).timeout())
            },
            exists|calls: Seq<&mut H>, run: Seq<H>|
                #[trigger] performed(
                    *old(handler),
                    calls,
                    run,
                    old(self)@.advance_actions(byte),
                    *final(handler),
                ) && forall|i: int| 0 <= i < calls.len() ==> *final(#[trigger] calls[i]) == run[i],
    {
        let ghost actions = self@.advance_actions(byte);
        proof {
            if self@.well_formed() {
                law_bytes_keep_processor_well_formed(self@, byte);
            }
        }
        if self.state.sync_state.timeout.is_none() {
            self.parse(handler, byte);
        } else {
            self.advance_sync(handler, byte);
        }
    }

    /// End a synchronized update.
    pub fn stop_sync<H>(&mut self, handler: &mut H) where H: Handler
        ensures
            final(self)@ == old(self)@.stopped(),
            old(self)@.well_formed() ==> final(self)@.well_formed(),
            final(self).timeout() is None,
            exists|calls: Seq<&mut H>, run: Seq<H>|
                #[trigger] performed(
                    *old(handler),
                    calls,
                    run,
                    old(self)@.stop_actions(),
                    *final(handler),
                ) && forall|i: int| 0 <= i < calls.len() ==> *final(#[trigger] calls[i]) == run[i],
    {
        let ghost processor0 = self@;
        let ghost buffer = self.state.sync_state.buffer@;
        let ghost handler0 = *handler;
        let ghost mut done: Seq<ActionView> = seq![];
        let count: usize = self.state.sync_state.buffer.len();
        let mut i: usize = 0;
        proof {
            if self@.well_formed() {
                law_stop_keeps_processor_well_formed(self@);
            }
            assert(buffer.take(0) =~= seq![]);
            assert(performed(*handler, Seq::<&mut H>::empty(), Seq::<H>::empty(), done, *handler));
        }
        // Process all synchronized bytes.
        while i < count
            invariant
                i <= count,
                count == buffer.len(),
                self.state.sync_state.buffer@ == buffer,
                self@ == processor0.parsed_all(buffer.take(i as int)),
                done == processor0.parse_all_actions(buffer.take(i as int)),
                exists|calls: Seq<&mut H>, run: Seq<H>|
                    #[trigger] performed(handler0, calls, run, done, *handler) && forall|j: int|
                        0 <= j < calls.len() ==> *final(#[trigger] calls[j]) == run[j],
            decreases count - i,
        {
            let ghost before = *handler;
            let ghost added = self@.parse_actions(buffer[i as int]);
            let ghost (calls1, run1) = choose|calls: Seq<&mut H>, run: Seq<H>|
                #[trigger] performed(handler0, calls, run, done, before) && forall|j: int|
                    0 <= j < calls.len() ==> *final(#[trigger] calls[j]) == run[j];
            proof {
                lemma_events_keep_sync(
                    self@.state,
                    parser_events(self@.fed, buffer[i as int]),
                );
            }
            let byte: u8 = self.state.sync_state.buffer[i];
            self.parse(handler, byte);
            proof {
                let (calls2, run2) = choose|calls: Seq<&mut H>, run: Seq<H>|
                    #[trigger] performed(before, calls, run, added, *handler) && forall|j: int|
                        0 <= j < calls.len() ==> *final(#[trigger] calls[j]) == run[j];
                lemma_performed_concat(
                    handler0, calls1, run1, done, before,
                    calls2, run2, added, *handler,
                );
                assert(buffer.take(i + 1).drop_last() =~= buffer.take(i as int));
                done = done + added;
            }
            i += 1;
        }
        assert(buffer.take(i as int) =~= buffer);
        assert(done == processor0.stop_actions());

        // Resetting state after processing makes sure we don't interpret buffered sync escapes.
        self.state.sync_state.buffer.clear();
        self.state.sync_state.pending_dcs = None;
        self.state.sync_state.timeout = None;
    }

    /// Synchronized update expiration time.
    #[inline]
    pub fn sync_timeout(&self) -> (timeout: Option<&Instant>)
        ensures
            timeout is Some <==> self@.state.syncing,
            match timeout {
                Some(t) => self.timeout() == Some(*t),
                None => self.timeout() is None,
            },
    {
        self.state.sync_state.timeout.as_ref()
    }

    /// Number of bytes in the synchronization buffer.
    #[inline]
    pub fn sync_bytes_count(&self) -> (count: usize)
        ensures
            count == self@.state.buffer.len(),
            self@.well_formed() ==> count <= SYNC_BUFFER_SIZE,
    {
        self.state.sync_state.buffer.len()
    }

    /// Process a new byte during a synchronized update.
    fn advance_sync<H>(&mut self, handler: &mut H, byte: u8) where H: Handler
        requires
            old(self)@.state.syncing,
        ensures
            final(self)@ == old(self)@.advanced(byte),
            final(self)@.state.syncing ==> if old(self)@.extends_sync(byte) {
                is_new_timeout(final(self).timeout())
            } else {
                final(self).timeout() == old(self).timeout()
            },
            exists|calls: Seq<&mut H>, run: Seq<H>|
                #[trigger] performed(
                    *old(handler),
                    calls,
                    run,
                    old(self)@.advance_actions(byte),
                    *final(handler),
                ) && forall|i: int| 0 <= i < calls.len() ==> *final(#[trigger] calls[i]) == run[i],
    {
        let ghost actions = self@.advance_actions(byte);
        let ghost buffered = self@.buffered(byte);
        self.state.sync_state.buffer.push(byte);
        assert(self@ =~= buffered);

        // A full buffer ends the update.
        if self.state.sync_state.buffer.len() >= SYNC_BUFFER_SIZE {
            self.stop_sync(handler);
            return;
        }

        // Handle synchronization strings.
        match self.state.sync_state.pending_dcs {
            Some(_) => self.advance_sync_dcs_end(handler, byte),
            None => {
                self.advance_sync_dcs_start();
                assert(performed(
                    *handler,
                    Seq::<&mut H>::empty(),
                    Seq::<H>::empty(),
                    actions,
                    *handler,
                ));
            },
        }
    }

    /// Find the start of synchronization strings.
    fn advance_sync_dcs_start(&mut self)
        ensures
            final(self)@ == old(self)@.with_pending(old(self)@.begun_string()),
            final(self).timeout() == old(self).timeout(),
    {
        // Get the last few bytes for comparison.
        let len: usize = self.state.sync_state.buffer.len();
        let offset: usize = if len < SYNC_ESCAPE_START_LEN {
            0
        } else {
            len - SYNC_ESCAPE_START_LEN
        };
        let end: &[u8] = &self.state.sync_state.buffer.as_slice()[offset..len];
        let start_escape: [u8; 5] = [C0::ESC, 'P' as u8, '=' as u8, '1' as u8, 's' as u8];
        let end_escape: [u8; 5] = [C0::ESC, 'P' as u8, '=' as u8, '2' as u8, 's' as u8];
        assert(start_escape@ =~= sync_start_escape());
        assert(end_escape@ =~= sync_end_escape());

        // Check for extension/termination of the synchronized update.
        let starts: bool = bytes_equal(end, &start_escape);
        let ends: bool = bytes_equal(end, &end_escape);
        if starts {
            self.state.sync_state.pending_dcs = Some(Dcs::SyncStart);
        } else if ends || len >= SYNC_BUFFER_SIZE - 1 {
            self.state.sync_state.pending_dcs = Some(Dcs::SyncEnd);
        } else {
            self.state.sync_state.pending_dcs = None;
        }
    }

    /// Parse the termination sequence of a synchronization string.
    fn advance_sync_dcs_end<H>(&mut self, handler: &mut H, byte: u8) where H: Handler
        requires
            old(self)@.state.syncing,
            old(self)@.state.pending_dcs is Some,
        ensures
            final(self)@ == old(self)@.pending_advanced(byte),
            final(self)@.state.syncing ==> if old(self)@.terminates(Dcs::SyncStart, byte) {
                is_new_timeout(final(self).timeout())
            } else {
                final(self).timeout() == old(self).timeout()
            },
            exists|calls: Seq<&mut H>, run: Seq<H>|
                #[trigger] performed(
                    *old(handler),
                    calls,
                    run,
                    old(self)@.pending_actions(byte),
                    *final(handler),
                ) && forall|i: int| 0 <= i < calls.len() ==> *final(#[trigger] calls[i]) == run[i],
    {
        let ghost actions = self@.pending_actions(byte);
        assert(!self@.terminates(Dcs::SyncEnd, byte) ==> performed(
            *handler,
            Seq::<&mut H>::empty(),
            Seq::<H>::empty(),
            actions,
            *handler,
        ));
        match byte {
            // Ignore passthrough characters.
            0x00..=0x17 | 0x19 | 0x1c..=0x7f | 0xa0..=0xff => {},
            // Cancel the string.
            0x18 | 0x1a | 0x80..=0x9f => {
                self.state.sync_state.pending_dcs = None;
            },
            // Dispatch on ESC.
            0x1b => match self.state.sync_state.pending_dcs {
                Some(Dcs::SyncStart) => {
                    self.state.sync_state.pending_dcs = None;
                    self.state.sync_state.restart();
                },
                Some(Dcs::SyncEnd) => self.stop_sync(handler),
                None => {},
            },
        }
    }
}

} // verus!
