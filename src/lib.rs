//! Decision logic of a boids flocking simulation.
//!
//! The numeric geometry of the simulation (vectors, angles, distances) is
//! computed by the host; this library decides, from what the host measured,
//! which boids act on which, which steering terms apply, and which escape
//! heading a blocked boid takes.
pub mod neighbors;
pub mod turn;
