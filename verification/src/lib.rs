//! Decision logic of a small 2D tank game, stated and proved over plain
//! values: the keyboard-driven movement deltas and the per-frame
//! quit-and-resize key handling. The game engine around it polls input,
//! renders, and applies these decisions.

pub mod movement;
pub mod window;
