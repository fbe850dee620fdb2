//! X4C: a small 32-bit fantasy computer with a 128 by 128 display.
//!
//! - `machine`: the machine state and its instruction set.
//! - `color`: the 32-colour palette, the colour table and the grey shade map.
//! - `display`: the display image, its vertical flip and the squares that draw it.
//! - `setup`: boot-time filling of memory (checkerboard, bitmap, glyphs) and memory dumps.
//! - `word`: splitting machine words into 32-bit halves.
//! - `laws`: properties that hold across the operations above.
use vstd::prelude::*;

pub mod word;
pub mod machine;
pub mod color;
pub mod display;
pub mod laws;
pub mod setup;

verus! {

} // verus!
