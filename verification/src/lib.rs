//! A small grid-board toy: a cursor square moves over a fixed cell grid in
//! response to arrow keys, and a mouse-wheel driven color wheel picks the
//! color of the cursor's outline.
//!
//! The crate holds the board's logic: the cyclic color wheel, the grid
//! coordinate model, and the per-frame draw-command computation. Opening a
//! window, rendering and event plumbing are left to the binary that embeds it.

pub mod colors;
pub mod game;
pub mod grid;
