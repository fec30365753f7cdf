//! Simulation core of a snake arcade game on a wrapped rectangular playfield.
//!
//! Positions are integer playfield units. The chain of segments moves one
//! cell per tick, eats food to grow, dies when its head meets its own body,
//! and wins once a fixed number of food items has been eaten.
pub mod apple;
pub mod apples;
pub mod game;
pub mod geometry;
pub mod seg;
pub mod snake;
mod random;
