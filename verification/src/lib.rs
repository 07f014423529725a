//! Movement and walk-cycle animation of a single keyboard-driven sprite.
//!
//! One tick turns the four directional keys into a movement state and a unit
//! velocity, picks the block of sprite-sheet frames that belongs to that
//! state, and moves the displayed frame through the block on a repeating
//! clock. Every stage is a function from plain values to plain values.

pub mod movement;
pub mod velocity;
pub mod frames;
pub mod clock;
pub mod sprite;
