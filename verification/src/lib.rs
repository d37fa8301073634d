//! Simulation of small mechanical systems: a damped pendulum, and masses
//! that slide on a sphere and pull at each other.
//!
//! The library integrates equations of motion with a fixed step
//! ([`integrate`]), describes points on a sphere and the rotations between
//! them ([`geometry`]), computes the forces between bodies on a sphere
//! ([`forces`]), and resamples what a simulation recorded
//! ([`interpolate`], [`trajectory`]).
//!
//! It does no trigonometry and takes no roots itself: where a sine, a
//! cosine, an inverse cosine or a square root is needed, the caller hands in
//! the function that computes it. The scalar type is a parameter throughout;
//! [`scalar`] says what is asked of it.

pub mod forces;
pub mod geometry;
pub mod integrate;
pub mod interpolate;
pub mod pair;
pub mod pendulum;
pub mod scalar;
pub mod trajectory;
