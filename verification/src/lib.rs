//! Core logic of a GPU terminal emulator: the character grid, the glyph
//! atlas, the scrollback viewport and the decisions of the render loop.
//!
//! Everything here works on plain values. Windows, the GPU device and the
//! pseudo-terminal are driven by the program around this crate.

pub mod atlas;
pub mod cell;
pub mod event;
pub mod font_texture;
pub mod reader;
pub mod render;
pub mod scroll;
pub mod term;
pub mod viewport;
pub mod wgpu_cell;
pub mod wgpu_vec;
