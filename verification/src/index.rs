//! Positions on the screen.

use vstd::prelude::*;

verus! {

/// A line, counted from the top of the screen.
#[derive(Debug, Copy, Clone, Eq, PartialEq, Default, Ord, PartialOrd, Structural)]
pub struct Line(pub i32);

/// A column, counted from the left edge of the screen.
#[derive(Debug, Copy, Clone, Eq, PartialEq, Default, Ord, PartialOrd, Structural)]
pub struct Column(pub usize);

} // verus!
