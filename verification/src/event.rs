//! What the window tells the render loop.

use vstd::prelude::*;

verus! {

/// One event of the window. Positions are in pixels from the window's
/// top-left corner.
#[derive(Clone, Copy, Debug, PartialEq, Eq, Structural)]
pub enum TemuEvent {
    /// The window has a new size.
    Resize { width: u32, height: u32 },
    /// The pointer moved.
    CursorMove { x: i32, y: i32 },
    /// The left button went down (`true`) or up (`false`).
    Left(bool),
    /// The window wants to be drawn again.
    Redraw,
    /// The window is closing.
    Close,
    /// The wheel turned one step away from the user.
    ScrollUp,
    /// The wheel turned one step towards the user.
    ScrollDown,
    /// A character was typed.
    Char(char),
    /// The display's resolution changed.
    DpiChange { dpi: i32 },
}

} // verus!
