//! Input-to-action translation and level catalog for a polygon-cutting
//! puzzle game.
//!
//! The `input` module tracks the cursor across a frame's pointer events and
//! turns modifier keys, edge-triggered presses and in-progress drawing state
//! into at most one high-level directive per frame. The `levels` module holds
//! the fixed catalog of level specifications and the introductory tutorial
//! text.
//!
//! Coordinates are carried as integer world units. The floating-point
//! camera transform that produces them from raw pixel positions lives with
//! the windowing layer, outside this crate.

pub mod input;
pub mod levels;
