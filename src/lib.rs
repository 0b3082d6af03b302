//! Frame counters, loop decisions and mesh layouts of a small animated scene
//! of two spheres and a cube.
pub mod frames;
pub mod pacing;
pub mod cube;
pub mod sphere;
pub mod look;
