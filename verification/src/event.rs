//! Events: what the escape sequence parser finds in the byte stream.

use vstd::prelude::*;

use crate::bytes::vec_views;
use crate::params::ParamList;

verus! {

/// A character or a complete piece of an escape sequence.
#[derive(Debug, PartialEq, Eq)]
pub enum Event {
    /// A character to be shown.
    Print(char),
    /// A C0 or C1 control function.
    Execute(u8),
    /// The final character of the first part of a device control string.
    Hook { params: ParamList, intermediates: Vec<u8>, ignore: bool, action: char },
    /// A byte of a device control string.
    Put(u8),
    /// The end of a device control string.
    Unhook,
    /// An operating system command.
    OscDispatch { fields: Vec<Vec<u8>>, bell_terminated: bool },
    /// The final character of a control sequence.
    CsiDispatch { params: ParamList, intermediates: Vec<u8>, ignore: bool, action: char },
    /// The final character of an escape sequence.
    EscDispatch { intermediates: Vec<u8>, ignore: bool, byte: u8 },
}

/// An [`Event`] with its parts as mathematical values.
#[verifier::ext_equal]
pub enum EventView {
    Print(char),
    Execute(u8),
    Hook { params: Seq<Seq<u16>>, intermediates: Seq<u8>, ignore: bool, action: char },
    Put(u8),
    Unhook,
    OscDispatch { fields: Seq<Seq<u8>>, bell_terminated: bool },
    CsiDispatch { params: Seq<Seq<u16>>, intermediates: Seq<u8>, ignore: bool, action: char },
    EscDispatch { intermediates: Seq<u8>, ignore: bool, byte: u8 },
}

impl View for Event {
    type V = EventView;

    open spec fn view(&self) -> EventView {
        match *self {
            Event::Print(c) => EventView::Print(c),
            Event::Execute(byte) => EventView::Execute(byte),
            Event::Hook { params, intermediates, ignore, action } => EventView::Hook {
                params: params@,
                intermediates: intermediates@,
                ignore,
                action,
            },
            Event::Put(byte) => EventView::Put(byte),
            Event::Unhook => EventView::Unhook,
            Event::OscDispatch { fields, bell_terminated } => EventView::OscDispatch {
                fields: vec_views(fields@),
                bell_terminated,
            },
            Event::CsiDispatch { params, intermediates, ignore, action } => EventView::CsiDispatch {
                params: params@,
                intermediates: intermediates@,
                ignore,
                action,
            },
            Event::EscDispatch { intermediates, ignore, byte } => EventView::EscDispatch {
                intermediates: intermediates@,
                ignore,
                byte,
            },
        }
    }
}

/// What a list of events holds.
pub open spec fn event_views(events: Seq<Event>) -> Seq<EventView> {
    events.map_values(|event: Event| event@)
}

} // verus!
