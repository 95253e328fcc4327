//! The particle engine of a terminal firework display.

pub mod burst;
pub mod chance;
pub mod compact;
pub mod engine;
pub mod fate;
pub mod input;
pub mod launch;
pub mod pellet;
