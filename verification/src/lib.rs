//! The spatial and movement core of a grid raycaster: a 3D map of typed
//! cells, a per-axis collision resolver with partial-height walls, thin
//! offset walls and portal links, a gravity integrator, and a DDA ray-cast
//! query. Continuous quantities are fixed-point: `i64` millionths of a map
//! unit, so every rule is exact integer arithmetic.

pub mod canvas;
pub mod cell;
pub mod direction;
pub mod fixed;
pub mod laws;
pub mod player;
pub mod portal;
pub mod ray;
pub mod vector;
pub mod world;
