//! What the cursor looks like.

use vstd::prelude::*;

verus! {

/// Terminal cursor configuration.
#[derive(Default, Debug, Eq, PartialEq, Copy, Clone, Hash, Structural)]
pub struct CursorStyle {
    pub shape: CursorShape,
    pub blinking: bool,
}

/// Terminal cursor shape.
#[derive(Debug, Eq, PartialEq, Copy, Clone, Hash, Default, Structural)]
pub enum CursorShape {
    /// Cursor is a filled block.
    #[default]
    Block,
    /// Cursor is an underscore like `_`.
    Underline,
    /// Cursor is a vertical bar.
    Beam,
    /// Cursor is an empty box.
    HollowBlock,
    /// Invisible cursor.
    Hidden,
}

} // verus!
