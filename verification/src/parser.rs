//! The escape sequence parser of the `vte` crate.
//!
//! What the parser finds in a byte depends on the bytes that it was fed before. The names
//! [`fed`] and [`parser_events`] stand for those bytes and for what the parser finds; that
//! the parser behaves as they say is taken from the `vte` crate and not proved here.

use vstd::prelude::*;

use crate::bytes::{to_byte_strings, to_bytes, slice_views};
use crate::event::{event_views, Event, EventView};
use crate::params::{group_views, no_group_empty, ParamList};

verus! {

#[verifier::external_type_specification]
#[verifier::external_body]
pub struct ExParser<const OSC_RAW_BUF_SIZE: usize>(vte::Parser<OSC_RAW_BUF_SIZE>);

#[verifier::external_type_specification]
#[verifier::external_body]
pub struct ExVteParams(vte::Params);

/// The bytes that a parser has been fed since it was created.
pub uninterp spec fn fed(parser: vte::Parser) -> Seq<u8>;

/// The calls that a parser that has been fed `history` makes when it is fed `byte`.
pub uninterp spec fn parser_events(history: Seq<u8>, byte: u8) -> Seq<EventView>;

/// The parameters that a parameter list of the `vte` crate holds, in order, each with its
/// value first and its subparameters behind it.
pub uninterp spec fn held(params: vte::Params) -> Seq<Seq<u16>>;

/// `vte::Parser::new` makes a parser that has been fed nothing yet.
pub assume_specification[ vte::Parser::new ]() -> (parser: vte::Parser)
    ensures
        fed(parser) == Seq::<u8>::empty(),
;

/// `vte::Params::iter` goes through the parameters in order. Each of the slices that it
/// hands out begins with the value of the parameter, so none of them is empty.
#[verifier::external_body]
fn groups_of(params: &vte::Params) -> (groups: Vec<Vec<u16>>)
    ensures
        group_views(groups@) == held(*params),
        no_group_empty(group_views(groups@)),
{
    params.iter().map(|group| group.to_vec()).collect()
}

/// The parameters of the library that stand for those of the `vte` crate.
fn params_of(params: &vte::Params) -> (result: ParamList)
    ensures
        result@ == held(*params),
{
    ParamList::new(groups_of(params)).unwrap()
}

/// Takes down the calls that a parser makes.
struct EventLog {
    events: Vec<Event>,
}

impl EventLog {
    pub closed spec fn entries(self) -> Seq<EventView> {
        event_views(self.events@)
    }

    fn note(&mut self, event: Event)
        ensures
            final(self).entries() == old(self).entries().push(event@),
    {
        self.events.push(event);
        assert(self.entries() =~= old(self).entries().push(event@));
    }
}

impl vte::Perform for EventLog {
    fn print(&mut self, c: char)
        ensures
            final(self).entries() == old(self).entries().push(EventView::Print(c)),
    {
        self.note(Event::Print(c));
    }

    fn execute(&mut self, byte: u8)
        ensures
            final(self).entries() == old(self).entries().push(EventView::Execute(byte)),
    {
        self.note(Event::Execute(byte));
    }

    fn hook(&mut self, params: &vte::Params, intermediates: &[u8], ignore: bool, action: char)
        ensures
            final(self).entries() == old(self).entries().push(
                (EventView::Hook {
                    params: held(*params),
                    intermediates: intermediates@,
                    ignore,
                    action,
                }),
            ),
    {
        self.note(
            Event::Hook {
                params: params_of(params),
                intermediates: to_bytes(intermediates),
                ignore,
                action,
            },
        );
    }

    fn put(&mut self, byte: u8)
        ensures
            final(self).entries() == old(self).entries().push(EventView::Put(byte)),
    {
        self.note(Event::Put(byte));
    }

    fn unhook(&mut self)
        ensures
            final(self).entries() == old(self).entries().push(EventView::Unhook),
    {
        self.note(Event::Unhook);
    }

    fn osc_dispatch(&mut self, params: &[&[u8]], bell_terminated: bool)
        ensures
            final(self).entries() == old(self).entries().push(
                (EventView::OscDispatch { fields: slice_views(params@), bell_terminated }),
            ),
    {
        self.note(Event::OscDispatch { fields: to_byte_strings(params), bell_terminated });
    }

    fn csi_dispatch(
        &mut self,
        params: &vte::Params,
        intermediates: &[u8],
        ignore: bool,
        action: char,
    )
        ensures
            final(self).entries() == old(self).entries().push(
                (EventView::CsiDispatch {
                    params: held(*params),
                    intermediates: intermediates@,
                    ignore,
                    action,
                }),
            ),
    {
        self.note(
            Event::CsiDispatch {
                params: params_of(params),
                intermediates: to_bytes(intermediates),
                ignore,
                action,
            },
        );
    }

    fn esc_dispatch(&mut self, intermediates: &[u8], ignore: bool, byte: u8)
        ensures
            final(self).entries() == old(self).entries().push(
                (EventView::EscDispatch { intermediates: intermediates@, ignore, byte }),
            ),
    {
        self.note(Event::EscDispatch { intermediates: to_bytes(intermediates), ignore, byte });
    }
}

/// `vte::Parser::advance` on one byte: the parser makes the calls that [`parser_events`]
/// names, in that order, and has been fed that byte besides those before.
#[verifier::external_body]
pub(crate) fn feed(parser: &mut vte::Parser, byte: u8) -> (events: Vec<Event>)
    ensures
        event_views(events@) == parser_events(fed(*old(parser)), byte),
        fed(*final(parser)) == fed(*old(parser)).push(byte),
{
    let mut log = EventLog { events: Vec::new() };
    parser.advance(&mut log, &[byte]);
    log.events
}

} // verus!
