//! Rules of a small 2D space-flight game: scalar wrap and range tests,
//! the ship's fuel, the player's controls, the world's planets and
//! starfield grid, and the decisions of each simulation frame.

pub mod controls;
pub mod frame;
pub mod laws;
pub mod math;
pub mod ship;
pub mod world;
