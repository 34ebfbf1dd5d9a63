//! Laws: what the sequences of the stream ask for, from the bytes and the numbers in them.
//!
//! The modules of the library hold the laws that say how its operations hang together. The laws
//! here say what each operation is for.

pub mod action;
pub mod color;
pub mod csi;
pub mod esc;
pub mod number;
pub mod osc;
pub mod sgr;
pub mod stream;
pub mod text;
pub mod xcolor;
