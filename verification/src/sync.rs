//! Laws of synchronized updates.
//!
//! During a synchronized update the bytes of the stream are held back. The laws say that this
//! only delays what they ask for: nothing is lost, changed or put in another order.

use vstd::prelude::*;

use crate::action::ActionView;
use crate::event::EventView;
use crate::parser::parser_events;
use crate::processor::{
    cancels_string, sync_end_escape, sync_start_escape, ProcessorView,
};
use crate::state::{Dcs, StateView, SYNC_BUFFER_SIZE};
use crate::C0;

verus! {

/// Whether two processors are in the same state but for what is about synchronized updates.
pub open spec fn same_apart_from_sync(a: ProcessorView, b: ProcessorView) -> bool {
    &&& a.fed == b.fed
    &&& a.state.preceding_char == b.state.preceding_char
    &&& a.state.dcs == b.state.dcs
}

/// What an event does does not depend on synchronized updates.
proof fn lemma_events_ignore_sync(a: StateView, b: StateView, events: Seq<EventView>)
    requires
        a.preceding_char == b.preceding_char,
        a.dcs == b.dcs,
    ensures
        a.after_all(events).preceding_char == b.after_all(events).preceding_char,
        a.after_all(events).dcs == b.after_all(events).dcs,
        a.actions_all(events) == b.actions_all(events),
    decreases events.len(),
{
    if events.len() > 0 {
        lemma_events_ignore_sync(a, b, events.drop_last());
    }
}

/// What bytes do that are fed to the parser does not depend on synchronized updates.
proof fn lemma_parsing_ignores_sync(a: ProcessorView, b: ProcessorView, bytes: Seq<u8>)
    requires
        same_apart_from_sync(a, b),
    ensures
        same_apart_from_sync(a.parsed_all(bytes), b.parsed_all(bytes)),
        a.parse_all_actions(bytes) == b.parse_all_actions(bytes),
    decreases bytes.len(),
{
    if bytes.len() > 0 {
        let rest = bytes.drop_last();
        lemma_parsing_ignores_sync(a, b, rest);
        lemma_events_ignore_sync(
            a.parsed_all(rest).state,
            b.parsed_all(rest).state,
            parser_events(a.parsed_all(rest).fed, bytes.last()),
        );
    }
}

/// The parser leaves what is about synchronized updates alone, but for starting one.
proof fn lemma_parsing_keeps_sync(p: ProcessorView, bytes: Seq<u8>)
    ensures
        p.parsed_all(bytes).state.buffer == p.state.buffer,
        p.parsed_all(bytes).state.pending_dcs == p.state.pending_dcs,
        p.state.syncing ==> p.parsed_all(bytes).state.syncing,
    decreases bytes.len(),
{
    if bytes.len() > 0 {
        let rest = p.parsed_all(bytes.drop_last());
        lemma_parsing_keeps_sync(p, bytes.drop_last());
        lemma_events_keep_sync(rest.state, parser_events(rest.fed, bytes.last()));
    }
}

/// Events leave what is about synchronized updates alone, but for starting one.
pub(crate) proof fn lemma_events_keep_sync(state: StateView, events: Seq<EventView>)
    ensures
        state.after_all(events).buffer == state.buffer,
        state.after_all(events).pending_dcs == state.pending_dcs,
        state.syncing ==> state.after_all(events).syncing,
    decreases events.len(),
{
    if events.len() > 0 {
        lemma_events_keep_sync(state, events.drop_last());
    }
}

/// Every byte keeps a processor well formed.
pub proof fn law_bytes_keep_processor_well_formed(p: ProcessorView, byte: u8)
    requires
        p.well_formed(),
    ensures
        p.advanced(byte).well_formed(),
{
    lemma_events_keep_sync(p.state, parser_events(p.fed, byte));
    let full = p.buffered(byte);
    lemma_parsing_keeps_sync(full, full.state.buffer);
}

/// The end of a synchronized update keeps a processor well formed.
pub proof fn law_stop_keeps_processor_well_formed(p: ProcessorView)
    requires
        p.well_formed(),
    ensures
        p.stopped().well_formed(),
{
    lemma_parsing_keeps_sync(p, p.state.buffer);
}

/// A processor stays well formed over all the bytes of a stream. In particular no synchronized
/// update ever holds more bytes back than one update may have.
pub proof fn law_stream_keeps_processor_well_formed(p: ProcessorView, bytes: Seq<u8>)
    requires
        p.well_formed(),
    ensures
        p.advanced_all(bytes).well_formed(),
        p.advanced_all(bytes).state.buffer.len() <= SYNC_BUFFER_SIZE,
    decreases bytes.len(),
{
    if bytes.len() > 0 {
        law_stream_keeps_processor_well_formed(p, bytes.drop_last());
        law_bytes_keep_processor_well_formed(p.advanced_all(bytes.drop_last()), bytes.last());
    }
}

/// Synchronized updates delay actions and do nothing else to them: after any bytes, once the
/// update is ended, the handler has received exactly what it would have received had the bytes
/// held back before and these bytes gone to the parser directly, and so has the parser.
pub proof fn law_synchronized_updates_only_delay(p: ProcessorView, bytes: Seq<u8>)
    requires
        p.well_formed(),
    ensures
        p.advance_all_actions(bytes) + p.advanced_all(bytes).stop_actions()
            == p.parse_all_actions(p.state.buffer + bytes),
        same_apart_from_sync(
            p.advanced_all(bytes).stopped(),
            p.parsed_all(p.state.buffer + bytes),
        ),
    decreases bytes.len(),
{
    let buffer = p.state.buffer;
    if bytes.len() == 0 {
        assert(buffer + bytes =~= buffer);
        assert(Seq::<ActionView>::empty() + p.stop_actions() =~= p.stop_actions());
    } else {
        let rest = bytes.drop_last();
        let byte = bytes.last();
        let q = p.advanced_all(rest);
        let direct = p.parsed_all(buffer + rest);
        law_synchronized_updates_only_delay(p, rest);
        law_stream_keeps_processor_well_formed(p, rest);
        assert((buffer + bytes).drop_last() =~= buffer + rest);
        let whole = p.parse_all_actions(buffer + bytes);
        assert(whole == p.parse_all_actions(buffer + rest) + direct.parse_actions(byte));
        if !q.state.syncing {
            // The byte goes to the parser, and nothing is held back before it or behind it.
            lemma_events_ignore_sync(q.state, direct.state, parser_events(q.fed, byte));
            lemma_events_keep_sync(q.state, parser_events(q.fed, byte));
            assert(q.parsed(byte).stop_actions() =~= seq![]);
            assert(p.advance_all_actions(bytes) + q.parsed(byte).stop_actions() =~= whole);
        } else {
            // The byte goes behind the bytes that are held back.
            let held = q.state.buffer.push(byte);
            assert(held.drop_last() =~= q.state.buffer);
            lemma_events_ignore_sync(
                q.parsed_all(q.state.buffer).state,
                direct.state,
                parser_events(direct.fed, byte),
            );
            assert(q.parse_all_actions(held) == q.stop_actions() + direct.parse_actions(byte));
            let next = q.advanced(byte);
            if q.ends_sync(byte) {
                let full = q.buffered(byte);
                lemma_parsing_ignores_sync(q, full, held);
                assert(next.stop_actions() =~= seq![]);
                assert(p.advance_all_actions(bytes) + next.stop_actions() =~= whole);
            } else {
                assert(next.state.buffer == held);
                lemma_parsing_ignores_sync(q, next, held);
                assert(p.advance_all_actions(bytes) =~= p.advance_all_actions(rest));
                assert(p.advance_all_actions(bytes) + next.stop_actions() =~= whole);
            }
        }
    }
}

/// Nothing is held back or pending any more once a synchronized update was ended, and to end it
/// again changes nothing.
pub proof fn law_stop_leaves_nothing_behind(p: ProcessorView)
    ensures
        !p.stopped().state.syncing,
        p.stopped().state.buffer == Seq::<u8>::empty(),
        p.stopped().state.pending_dcs is None,
        p.stopped().stop_actions() == Seq::<ActionView>::empty(),
        p.stopped().stopped() == p.stopped(),
{
}

/// To end a synchronized update where none is going on changes nothing.
pub proof fn law_stop_without_update_changes_nothing(p: ProcessorView)
    requires
        p.well_formed(),
        !p.state.syncing,
    ensures
        p.stopped() == p,
        p.stop_actions() == Seq::<ActionView>::empty(),
{
    assert(p.stopped() =~= p);
}

/// During a synchronized update a byte that does not end it is held back: no action comes of
/// it, and the parser does not see it.
pub proof fn law_update_holds_bytes_back(p: ProcessorView, byte: u8)
    requires
        p.state.syncing,
        !p.ends_sync(byte),
    ensures
        p.advance_actions(byte) == Seq::<ActionView>::empty(),
        p.advanced(byte).state.syncing,
        p.advanced(byte).state.buffer == p.state.buffer.push(byte),
        same_apart_from_sync(p.advanced(byte), p),
{
}

/// The byte that ends a synchronized update gives all the actions that were held back.
pub proof fn law_end_of_update_releases_everything(p: ProcessorView, byte: u8)
    requires
        p.ends_sync(byte),
    ensures
        p.advance_actions(byte) == p.parse_all_actions(p.state.buffer.push(byte)),
        !p.advanced(byte).state.syncing,
        p.advanced(byte).state.buffer == Seq::<u8>::empty(),
{
    let full = p.buffered(byte);
    lemma_parsing_ignores_sync(p, full, full.state.buffer);
}

/// The five bytes with which a synchronization string begins, one behind the other.
proof fn lemma_advanced_by_five(p: ProcessorView, a: u8, b: u8, c: u8, d: u8, e: u8)
    ensures
        p.advanced_all(seq![a, b, c, d, e]) == p.advanced(a).advanced(b).advanced(c).advanced(
            d,
        ).advanced(e),
{
    let s = seq![a, b, c, d, e];
    assert(s.take(0) =~= seq![]);
    assert(s.take(1).drop_last() =~= s.take(0));
    assert(s.take(2).drop_last() =~= s.take(1));
    assert(s.take(3).drop_last() =~= s.take(2));
    assert(s.take(4).drop_last() =~= s.take(3));
    assert(s.drop_last() =~= s.take(4));
    assert(p.advanced_all(s.take(0)) == p);
    assert(p.advanced_all(s.take(1)) == p.advanced(a));
    assert(p.advanced_all(s.take(2)) == p.advanced(a).advanced(b));
    assert(p.advanced_all(s.take(3)) == p.advanced(a).advanced(b).advanced(c));
    assert(p.advanced_all(s.take(4)) == p.advanced(a).advanced(b).advanced(c).advanced(d));
}

/// A byte that is not the last of a synchronization string begins none.
proof fn lemma_no_string_begun(p: ProcessorView, byte: u8)
    requires
        p.state.syncing,
        p.state.pending_dcs is None,
        !p.fills_buffer(byte),
        byte != 's' as u8,
    ensures
        p.advanced(byte) == p.buffered(byte).with_pending(
            if p.state.buffer.len() + 1 >= SYNC_BUFFER_SIZE - 1 {
                Some(Dcs::SyncEnd)
            } else {
                None
            },
        ),
{
    let buffer = p.state.buffer.push(byte);
    if sync_start_escape().is_suffix_of(buffer) {
        assert(sync_start_escape()[4] == buffer[buffer.len() - 1]);
    }
    if sync_end_escape().is_suffix_of(buffer) {
        assert(sync_end_escape()[4] == buffer[buffer.len() - 1]);
    }
}

/// A string that ends a synchronized update does so with the ESC of its termination sequence,
/// unless the buffer is full before.
pub proof fn law_end_string_ends_update(p: ProcessorView)
    requires
        p.state.syncing,
        p.state.pending_dcs is None,
        p.state.buffer.len() + 5 < SYNC_BUFFER_SIZE,
    ensures
        p.advanced_all(sync_end_escape()).ends_sync(C0::ESC),
        p.advanced_all(sync_end_escape()).state.buffer == p.state.buffer + sync_end_escape(),
{
    let p1 = p.advanced(C0::ESC);
    let p2 = p1.advanced('P' as u8);
    let p3 = p2.advanced('=' as u8);
    let p4 = p3.advanced('2' as u8);
    let p5 = p4.advanced('s' as u8);
    lemma_advanced_by_five(p, C0::ESC, 'P' as u8, '=' as u8, '2' as u8, 's' as u8);
    lemma_no_string_begun(p, C0::ESC);
    if p1.state.pending_dcs is None {
        lemma_no_string_begun(p1, 'P' as u8);
    }
    if p2.state.pending_dcs is None {
        lemma_no_string_begun(p2, '=' as u8);
    }
    if p3.state.pending_dcs is None {
        lemma_no_string_begun(p3, '2' as u8);
    }
    assert(p5.state.buffer =~= p.state.buffer + sync_end_escape());
    let buffer = p5.state.buffer;
    assert(buffer.subrange(buffer.len() - 5, buffer.len() as int) =~= sync_end_escape());
    if sync_start_escape().is_suffix_of(buffer) {
        assert(sync_start_escape()[3] == buffer[buffer.len() - 2]);
    }
}

/// A string that starts a synchronized update extends one that is going on, with the ESC of
/// its termination sequence, unless that fills the buffer.
pub proof fn law_start_string_extends_update(p: ProcessorView)
    requires
        p.state.syncing,
        p.state.pending_dcs is None,
        p.state.buffer.len() + 6 < SYNC_BUFFER_SIZE,
    ensures
        p.advanced_all(sync_start_escape()).extends_sync(C0::ESC),
        p.advanced_all(sync_start_escape()).state.buffer == p.state.buffer + sync_start_escape(),
{
    let p1 = p.advanced(C0::ESC);
    let p2 = p1.advanced('P' as u8);
    let p3 = p2.advanced('=' as u8);
    let p4 = p3.advanced('1' as u8);
    let p5 = p4.advanced('s' as u8);
    lemma_advanced_by_five(p, C0::ESC, 'P' as u8, '=' as u8, '1' as u8, 's' as u8);
    lemma_no_string_begun(p, C0::ESC);
    lemma_no_string_begun(p1, 'P' as u8);
    lemma_no_string_begun(p2, '=' as u8);
    lemma_no_string_begun(p3, '1' as u8);
    let buffer = p5.state.buffer;
    assert(buffer =~= p.state.buffer + sync_start_escape());
    assert(buffer.subrange(buffer.len() - 5, buffer.len() as int) =~= sync_start_escape());
}

/// A synchronization string that is broken off has no effect on the synchronized update, unless
/// the byte that breaks it off fills the buffer.
pub proof fn law_cancelled_string_has_no_effect(p: ProcessorView, byte: u8)
    requires
        p.state.syncing,
        p.state.pending_dcs is Some,
        !p.fills_buffer(byte),
        cancels_string(byte),
    ensures
        p.advanced(byte) == p.buffered(byte).with_pending(None),
        p.advance_actions(byte) == Seq::<ActionView>::empty(),
{
}

/// The byte that fills the buffer ends the synchronized update, whatever byte it is.
pub proof fn law_full_buffer_ends_update(p: ProcessorView, byte: u8)
    requires
        p.state.syncing,
        p.state.buffer.len() + 1 >= SYNC_BUFFER_SIZE,
    ensures
        !p.advanced(byte).state.syncing,
        p.advanced(byte).state.buffer == Seq::<u8>::empty(),
        p.advance_actions(byte) == p.parse_all_actions(p.state.buffer.push(byte)),
{
    law_end_of_update_releases_everything(p, byte);
}

} // verus!
