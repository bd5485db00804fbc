//! Input state, camera stepping and the surface lifecycle of a real-time
//! fractal viewer, with the decisions of its three loops stated and proved.

pub mod input;
pub mod shared;
pub mod movement;
pub mod engine;
