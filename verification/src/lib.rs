//! Physics core of a small side-scrolling platformer: a circular player,
//! axis-aligned platforms, a bouncing enemy and a vertical scroll camera.
//!
//! Every quantity is a fixed-point number held in an `i64` (see [`fixed`]),
//! so a frame is an exact, total function of the state before it.

pub mod fixed;
pub mod vector;
pub mod world;
pub mod collision;
pub mod player;
pub mod enemy;
pub mod screen;
pub mod guarantees;
