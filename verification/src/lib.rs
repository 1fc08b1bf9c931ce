//! Core simulation of a two-paddle ball game.
//!
//! The library holds the per-frame logic: paddle movement confined to the
//! field, ball position integration with wall bounces and scoring, collision
//! resolution against a paddle with an edge bias, and the reactive heuristic
//! that steers the second paddle. Rendering, input polling and frame timing
//! live outside the library; the caller supplies each tick's displacement as
//! an integer pixel amount (elapsed seconds times the entity's speed,
//! truncated toward zero).

pub mod ai;
pub mod ball;
pub mod paddle;
pub mod rect;
