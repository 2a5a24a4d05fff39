//! The terminal's own screen model and its colors.

pub mod escape;
pub mod grid;

use crate::term::grid::Color;
use vstd::prelude::*;

verus! {

/// Columns of the grid that the shell starts with.
pub const COLUMN: u32 = 80;

/// Rows of the window that the shell starts with.
pub const ROW: u32 = 23;

/// The two colors that a cell has when nothing else was asked for.
#[derive(Clone, Copy, Debug, PartialEq, Eq, Structural)]
pub struct ColorPalette {
    /// Color behind the text.
    pub background: Color,
    /// Color of the text.
    pub foreground: Color,
}

/// Background of a cell that was never styled: black.
pub open spec fn default_background() -> Color {
    Color { r: 0, g: 0, b: 0 }
}

/// Foreground of a cell that was never styled: white.
pub open spec fn default_foreground() -> Color {
    Color { r: 255, g: 255, b: 255 }
}

/// The terminal's fixed configuration.
#[derive(Clone, Copy, Debug)]
pub struct TerminalConfig;

impl TerminalConfig {
    /// The palette in use: white text on black.
    pub fn color_palette(&self) -> (palette: ColorPalette)
        ensures
            palette.background == default_background(),
            palette.foreground == default_foreground(),
    {
        ColorPalette {
            background: Color { r: 0, g: 0, b: 0 },
            foreground: Color { r: 255, g: 255, b: 255 },
        }
    }
}

} // verus!
