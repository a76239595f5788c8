//! A terminal emulator core: a character grid driven by ANSI/VT escape
//! sequences, the 256-colour palette, keyboard-to-byte mapping and the
//! grouping of grid rows into drawable runs.

mod params;
pub mod decoder;

pub mod color;
pub mod grid;
pub mod input;
pub mod render;
pub mod laws;
pub mod stream;

pub use color::{color_256, Color};
