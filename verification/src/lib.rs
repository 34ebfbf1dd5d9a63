//! Interpretation of the byte stream that a program writes to a terminal.
//!
//! A [`processor::Processor`] takes in the stream byte by byte. The parser of the `vte` crate
//! finds the characters and the sequences in it ([`parser`]); what it finds is an
//! [`event::Event`]. Each event asks for some [`action::Action`]s ([`control`], [`csi`],
//! [`esc`], [`osc`], [`state`]), and each action is the call of one method of a
//! [`handler::Handler`].
//!
//! During a synchronized update the bytes are held back and no method is called. The laws of
//! such updates are in [`sync`], and those that say what each sequence asks for in [`laws`].

#[allow(non_snake_case)]
pub mod C0;
pub mod action;
pub mod attr;
pub mod bytes;
pub mod charset;
pub mod clock;
pub mod color;
pub mod control;
pub mod csi;
pub mod cursor;
pub mod esc;
pub mod event;
pub mod handler;
pub mod index;
pub mod laws;
pub mod mode;
pub mod number;
pub mod osc;
pub mod params;
pub mod parser;
pub mod processor;
pub mod sgr;
pub mod state;
pub mod sync;
pub mod text;
pub mod xcolor;
