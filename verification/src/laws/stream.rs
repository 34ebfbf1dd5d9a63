//! Laws of the stream: from bytes to events, from events to actions, and what a synchronized
//! update holds back.

use vstd::prelude::*;

use std::time::Instant;

use crate::action::ActionView;
use crate::clock::{deadline, later};
use crate::control::control_action;
use crate::csi::csi_actions;
use crate::esc::esc_actions;
use crate::event::EventView;
use crate::osc::osc_actions;
use crate::parser::parser_events;
use crate::processor::{sync_end_escape, sync_start_escape, ProcessorView};
use crate::state::{is_new_timeout, Dcs, StateView, SYNC_BUFFER_SIZE, SYNC_UPDATE_TIMEOUT};

verus! {

/// A processor begins with nothing shown, nothing held back and no string waited for.
pub proof fn law_beginning()
    ensures
        StateView::initial().preceding_char is None,
        StateView::initial().dcs is None,
        !StateView::initial().syncing,
        StateView::initial().pending_dcs is None,
        StateView::initial().buffer == Seq::<u8>::empty(),
{
}

/// A character is shown and remembered; a control character, a control sequence, an escape
/// sequence and a command ask for what they stand for and leave nothing behind.
pub proof fn law_events(
    state: StateView,
    c: char,
    byte: u8,
    flag: bool,
    params: Seq<Seq<u16>>,
    intermediates: Seq<u8>,
    fields: Seq<Seq<u8>>,
)
    ensures
        state.actions(EventView::Print(c)) == seq![ActionView::Input(c)],
        state.after(EventView::Print(c)) == (StateView { preceding_char: Some(c), ..state }),
        state.actions(EventView::Execute(byte)) == seq![control_action(byte)],
        state.after(EventView::Execute(byte)) == state,
        state.actions(EventView::Put(byte)) == seq![ActionView::UnhandledPut(byte)],
        state.after(EventView::Put(byte)) == state,
        ({
            let event = EventView::OscDispatch { fields, bell_terminated: flag };
            &&& state.actions(event) == osc_actions(fields, flag)
            &&& state.after(event) == state
        }),
        ({
            let event = EventView::CsiDispatch { params, intermediates, ignore: flag, action: c };
            &&& state.actions(event) == csi_actions(
                state.preceding_char,
                params,
                intermediates,
                flag,
                c,
            )
            &&& state.after(event) == state
        }),
        ({
            let event = EventView::EscDispatch { intermediates, ignore: flag, byte };
            &&& state.actions(event) == esc_actions(intermediates, flag, byte)
            &&& state.after(event) == state
        }),
{
}

/// A device control string that begins with `=` and an `s` is about synchronized updates and is
/// not passed on; every other one is. Only the parameter 1 has such a string start an update,
/// and that at its end.
pub proof fn law_device_control_strings(
    state: StateView,
    params: Seq<Seq<u16>>,
    intermediates: Seq<u8>,
    ignore: bool,
    action: char,
)
    ensures
        ({
            let hook = EventView::Hook { params, intermediates, ignore, action };
            let about_updates = action == 's' && intermediates.len() == 1 && intermediates[0]
                == '=' as u8;
            let starts = about_updates && params.len() > 0 && params[0][0] == 1;
            &&& about_updates ==> state.actions(hook) == Seq::<ActionView>::empty()
            &&& !about_updates ==> state.actions(hook) == seq![
                ActionView::UnhandledHook(params, intermediates, ignore, action),
            ]
            &&& starts ==> state.after(hook) == (StateView { dcs: Some(Dcs::SyncStart), ..state })
            &&& !starts ==> state.after(hook) == state
        }),
        state.dcs == Some(Dcs::SyncStart) ==> {
            &&& state.actions(EventView::Unhook) == Seq::<ActionView>::empty()
            &&& state.starts_sync(EventView::Unhook)
            &&& state.after(EventView::Unhook) == (StateView {
                dcs: Some(Dcs::SyncEnd),
                syncing: true,
                ..state
            })
        },
        state.dcs == Some(Dcs::SyncEnd) ==> {
            &&& state.actions(EventView::Unhook) == Seq::<ActionView>::empty()
            &&& !state.starts_sync(EventView::Unhook)
            &&& state.after(EventView::Unhook) == state
        },
        state.dcs is None ==> {
            &&& state.actions(EventView::Unhook) == seq![ActionView::UnhandledUnhook]
            &&& !state.starts_sync(EventView::Unhook)
            &&& state.after(EventView::Unhook) == state
        },
{
    assert(intermediates.len() == 1 && intermediates[0] == '=' as u8 ==> intermediates =~= seq![
        '=' as u8,
    ]);
    assert(seq!['=' as u8][0] == '=' as u8);
}

/// Only the end of a string starts an update.
pub proof fn law_only_ends_of_strings_start_updates(state: StateView, event: EventView)
    requires
        !(event is Unhook),
    ensures
        !state.starts_sync(event),
        state.after(event).syncing == state.syncing,
        state.after(event).buffer == state.buffer,
        state.after(event).pending_dcs == state.pending_dcs,
{
}

/// Events take effect one behind the other, and all their actions come in that order.
pub proof fn law_events_take_effect_in_order(
    state: StateView,
    event: EventView,
    first: Seq<EventView>,
    second: Seq<EventView>,
)
    ensures
        state.after_all(seq![]) == state,
        state.actions_all(seq![]) == Seq::<ActionView>::empty(),
        state.after_all(seq![event]) == state.after(event),
        state.actions_all(seq![event]) == state.actions(event),
        state.after_all(first + second) == state.after_all(first).after_all(second),
        state.actions_all(first + second) == state.actions_all(first) + state.after_all(
            first,
        ).actions_all(second),
    decreases second.len(),
{
    assert(seq![event].drop_last() =~= seq![]);
    assert(state.after_all(seq![event].drop_last()) == state);
    assert(state.actions_all(seq![event].drop_last()) == Seq::<ActionView>::empty());
    assert(state.actions_all(seq![event]) =~= state.actions(event));
    if second.len() == 0 {
        assert(first + second =~= first);
        assert(state.actions_all(first) + Seq::<ActionView>::empty() =~= state.actions_all(first));
    } else {
        let rest = second.drop_last();
        law_events_take_effect_in_order(state, event, first, rest);
        assert((first + second).drop_last() =~= first + rest);
        assert(state.actions_all(first + second) =~= state.actions_all(first) + state.after_all(
            first,
        ).actions_all(second));
    }
}

/// The parser is fed byte by byte, and what it finds takes effect as it is found.
pub proof fn law_bytes_are_parsed_in_order(
    p: ProcessorView,
    byte: u8,
    first: Seq<u8>,
    second: Seq<u8>,
)
    ensures
        p.parsed_all(seq![]) == p,
        p.parse_all_actions(seq![]) == Seq::<ActionView>::empty(),
        p.parsed_all(seq![byte]).fed == p.fed.push(byte),
        p.parsed_all(seq![byte]).state == p.state.after_all(parser_events(p.fed, byte)),
        p.parse_all_actions(seq![byte]) == p.state.actions_all(parser_events(p.fed, byte)),
        p.parsed_all(first + second) == p.parsed_all(first).parsed_all(second),
        p.parse_all_actions(first + second) == p.parse_all_actions(first) + p.parsed_all(
            first,
        ).parse_all_actions(second),
    decreases second.len(),
{
    assert(seq![byte].drop_last() =~= seq![]);
    assert(p.parsed_all(seq![byte].drop_last()) == p);
    assert(p.parse_all_actions(seq![byte].drop_last()) == Seq::<ActionView>::empty());
    assert(p.parse_all_actions(seq![byte]) =~= p.state.actions_all(parser_events(p.fed, byte)));
    if second.len() == 0 {
        assert(first + second =~= first);
        assert(p.parse_all_actions(first) + Seq::<ActionView>::empty() =~= p.parse_all_actions(
            first,
        ));
    } else {
        let rest = second.drop_last();
        law_bytes_are_parsed_in_order(p, byte, first, rest);
        assert((first + second).drop_last() =~= first + rest);
        assert(p.parse_all_actions(first + second) =~= p.parse_all_actions(first) + p.parsed_all(
            first,
        ).parse_all_actions(second));
    }
}

/// The stream is taken in byte by byte, and all actions come in the order of the bytes.
pub proof fn law_stream_is_taken_in_order(
    p: ProcessorView,
    byte: u8,
    first: Seq<u8>,
    second: Seq<u8>,
)
    ensures
        p.advanced_all(seq![]) == p,
        p.advance_all_actions(seq![]) == Seq::<ActionView>::empty(),
        p.advanced_all(seq![byte]) == p.advanced(byte),
        p.advance_all_actions(seq![byte]) == p.advance_actions(byte),
        p.advanced_all(first + second) == p.advanced_all(first).advanced_all(second),
        p.advance_all_actions(first + second) == p.advance_all_actions(first) + p.advanced_all(
            first,
        ).advance_all_actions(second),
    decreases second.len(),
{
    assert(seq![byte].drop_last() =~= seq![]);
    assert(p.advanced_all(seq![byte].drop_last()) == p);
    assert(p.advance_all_actions(seq![byte].drop_last()) == Seq::<ActionView>::empty());
    assert(p.advance_all_actions(seq![byte]) =~= p.advance_actions(byte));
    if second.len() == 0 {
        assert(first + second =~= first);
        assert(p.advance_all_actions(first) + Seq::<ActionView>::empty() =~= p.advance_all_actions(
            first,
        ));
    } else {
        let rest = second.drop_last();
        law_stream_is_taken_in_order(p, byte, first, rest);
        assert((first + second).drop_last() =~= first + rest);
        assert(p.advance_all_actions(first + second) =~= p.advance_all_actions(first)
            + p.advanced_all(first).advance_all_actions(second));
    }
}

/// Outside of an update every byte goes to the parser at once.
pub proof fn law_bytes_outside_of_an_update(p: ProcessorView, byte: u8)
    requires
        !p.state.syncing,
    ensures
        p.advanced(byte) == p.parsed_all(seq![byte]),
        p.advance_actions(byte) == p.parse_all_actions(seq![byte]),
{
    law_bytes_are_parsed_in_order(p, byte, seq![], seq![]);
}

/// The end of an update gives the parser everything that was held back, and leaves of what is
/// about updates nothing but the end.
pub proof fn law_end_of_an_update(p: ProcessorView)
    ensures
        p.stop_actions() == p.parse_all_actions(p.state.buffer),
        p.stopped().fed == p.parsed_all(p.state.buffer).fed,
        p.stopped().state == (StateView {
            preceding_char: p.parsed_all(p.state.buffer).state.preceding_char,
            dcs: p.parsed_all(p.state.buffer).state.dcs,
            syncing: false,
            pending_dcs: None,
            buffer: seq![],
        }),
{
}

/// Whether the last five bytes of the ones held back are the given ones.
proof fn lemma_last_five(buffer: Seq<u8>, escape: Seq<u8>)
    requires
        escape.len() == 5,
    ensures
        escape.is_suffix_of(buffer) <==> buffer.len() >= 5 && buffer.subrange(
            buffer.len() - 5,
            buffer.len() as int,
        ) == escape,
{
    if buffer.len() >= 5 {
        assert(buffer.subrange(buffer.len() - 5, buffer.len() as int) == escape
            <==> buffer.subrange(buffer.len() - 5, buffer.len() as int) =~= escape);
    }
}

/// While no synchronization string is pending, one is recognised by nothing but its five bytes:
/// `ESC P = 1 s` begins a string that extends the update, `ESC P = 2 s` one that ends it. The
/// last byte but one that the buffer has room for counts as the latter.
pub proof fn law_synchronization_strings_are_spelled_out(p: ProcessorView, byte: u8, last: Seq<u8>)
    requires
        p.state.syncing,
        p.state.pending_dcs is None,
        p.state.buffer.len() + 1 < SYNC_BUFFER_SIZE,
        p.state.buffer.len() >= 4 ==> last == p.state.buffer.push(byte).subrange(
            p.state.buffer.len() - 4,
            (p.state.buffer.len() + 1) as int,
        ),
        p.state.buffer.len() < 4 ==> last == Seq::<u8>::empty(),
    ensures
        ({
            let pending = p.advanced(byte).state.pending_dcs;
            let full = p.state.buffer.len() + 1 >= SYNC_BUFFER_SIZE - 1;
            &&& pending == Some(Dcs::SyncStart) <==> last == seq![0x1bu8, 0x50, 0x3d, 0x31, 0x73]
            &&& pending == Some(Dcs::SyncEnd) <==> last == seq![0x1bu8, 0x50, 0x3d, 0x32, 0x73] || (
            full && last != seq![0x1bu8, 0x50, 0x3d, 0x31, 0x73])
        }),
{
    let buffer = p.state.buffer.push(byte);
    let start = seq![0x1bu8, 0x50, 0x3d, 0x31, 0x73];
    let end = seq![0x1bu8, 0x50, 0x3d, 0x32, 0x73];
    assert(start[3] == 0x31 && end[3] == 0x32);
    assert(start.len() == 5 && end.len() == 5);
    assert(sync_start_escape() =~= start);
    assert(sync_end_escape() =~= end);
    lemma_last_five(buffer, start);
    lemma_last_five(buffer, end);
    assert(start != end);
}

/// What a byte does to a pending synchronization string: ESC terminates it, CAN, SUB and the
/// bytes from 0x80 to 0x9f break it off, and every other byte belongs to it.
pub proof fn law_bytes_of_synchronization_strings(p: ProcessorView, byte: u8)
    requires
        p.state.syncing,
        p.state.pending_dcs is Some,
        p.state.buffer.len() + 1 < SYNC_BUFFER_SIZE,
    ensures
        p.ends_sync(byte) <==> byte == 0x1b && p.state.pending_dcs == Some(Dcs::SyncEnd),
        p.extends_sync(byte) <==> byte == 0x1b && p.state.pending_dcs == Some(Dcs::SyncStart),
        p.advanced(byte).state.syncing <==> !p.ends_sync(byte),
        byte == 0x1b || byte == 0x18 || byte == 0x1a || 0x80 <= byte <= 0x9f ==> p.advanced(
            byte,
        ).state.pending_dcs is None,
        byte != 0x1b && byte != 0x18 && byte != 0x1a && !(0x80 <= byte <= 0x9f) ==> p.advanced(
            byte,
        ).state.pending_dcs == p.state.pending_dcs,
{
}

/// Outside of an update there is none to end or to extend, and without a pending string only
/// the last byte that the buffer has room for ends one.
pub proof fn law_updates_do_not_end_by_themselves(p: ProcessorView, byte: u8)
    ensures
        !p.state.syncing ==> !p.ends_sync(byte) && !p.extends_sync(byte),
        p.state.syncing && p.state.pending_dcs is None ==> !p.extends_sync(byte),
        p.state.syncing && p.state.pending_dcs is None ==> (p.ends_sync(byte)
            <==> p.state.buffer.len() + 1 >= SYNC_BUFFER_SIZE),
        p.state.syncing && p.state.buffer.len() + 1 >= SYNC_BUFFER_SIZE ==> p.ends_sync(byte)
            && !p.extends_sync(byte),
{
}

/// An update goes on until its end string comes. Bytes that neither complete an `ESC P = 2 s`
/// nor come near the end of the buffer end no update: all of them are held back, in their order,
/// and no action comes of them.
pub proof fn law_update_goes_on_until_its_end_string(p: ProcessorView, bytes: Seq<u8>)
    requires
        p.state.syncing,
        p.state.pending_dcs != Some(Dcs::SyncEnd),
        p.state.buffer.len() + bytes.len() < SYNC_BUFFER_SIZE - 1,
        forall|i: int|
            p.state.buffer.len() < i <= p.state.buffer.len() + bytes.len() && i >= 5
                ==> #[trigger] (p.state.buffer + bytes).subrange(i - 5, i) != seq![
                0x1bu8,
                0x50,
                0x3d,
                0x32,
                0x73,
            ],
    ensures
        p.advanced_all(bytes).state.syncing,
        p.advanced_all(bytes).state.pending_dcs != Some(Dcs::SyncEnd),
        p.advanced_all(bytes).state.buffer == p.state.buffer + bytes,
        p.advanced_all(bytes).fed == p.fed,
        p.advance_all_actions(bytes) == Seq::<ActionView>::empty(),
    decreases bytes.len(),
{
    let end = seq![0x1bu8, 0x50, 0x3d, 0x32, 0x73];
    let held = p.state.buffer + bytes;
    if bytes.len() == 0 {
        assert(held =~= p.state.buffer);
    } else {
        let rest = bytes.drop_last();
        let byte = bytes.last();
        let before = p.state.buffer + rest;
        assert forall|i: int|
            p.state.buffer.len() < i <= p.state.buffer.len() + rest.len() && i
                >= 5 implies #[trigger] before.subrange(i - 5, i) != end by {
            assert(before.subrange(i - 5, i) =~= held.subrange(i - 5, i));
        }
        law_update_goes_on_until_its_end_string(p, rest);
        let q = p.advanced_all(rest);
        assert(q.state.buffer.push(byte) =~= held);
        if held.len() >= 5 {
            assert(held.subrange(held.len() - 5, held.len() as int) != end);
        }
        if q.state.pending_dcs is None {
            let last = if q.state.buffer.len() >= 4 {
                held.subrange(held.len() - 5, held.len() as int)
            } else {
                Seq::<u8>::empty()
            };
            law_synchronization_strings_are_spelled_out(q, byte, last);
            assert(Seq::<u8>::empty().len() != end.len());
        }
        assert(p.advance_all_actions(bytes) =~= seq![]);
    }
}

/// A time that begins at `start` is over after its milliseconds, and at once where that cannot
/// be represented.
pub proof fn law_deadlines(start: Instant, millis: u64)
    ensures
        later(start, millis) is Some ==> deadline(start, millis) == later(start, millis)->0,
        later(start, millis) is None ==> deadline(start, millis) == start,
{
}

/// An update expires 150 milliseconds after a time that the clock gave.
pub proof fn law_updates_expire(timeout: Option<Instant>)
    requires
        is_new_timeout(timeout),
    ensures
        exists|now: Instant|
            {
                &&& call_ensures(Instant::now, (), now)
                &&& match #[trigger] later(now, 150) {
                    Some(end) => timeout == Some(end),
                    None => timeout == Some(now),
                }
            },
{
    let now = choose|now: Instant|
        call_ensures(Instant::now, (), now) && timeout == Some(
            #[trigger] deadline(now, SYNC_UPDATE_TIMEOUT),
        );
    assert(match later(now, 150) {
        Some(end) => timeout == Some(end),
        None => timeout == Some(now),
    });
}

} // verus!
