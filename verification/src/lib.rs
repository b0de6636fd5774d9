//! The integer core of a pointer-attracted particle swarm: where particles
//! start, how fast, in which colour, and how many of them there are.
//!
//! Everything here is exact integer arithmetic. Positions are whole pixels,
//! velocities are hundredths of a pixel per frame.

pub mod particle;
pub mod random;
pub mod swarm;
