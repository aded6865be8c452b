//! Simulation core of a minimal arcade game: one ball bouncing among three
//! fixed walls and a player paddle, with a point scored whenever the ball
//! escapes through the open bottom boundary.
//!
//! All geometry is integer fixed-point so that every step of the simulation
//! is exact. Positions are measured in micro-units (one world unit is
//! `POS_UNIT` micro-units) and velocity directions in milli-units per second
//! (one world unit per second is `VEL_UNIT`). Frame time is given in whole
//! milliseconds. Because `VEL_UNIT * MS_PER_SECOND == POS_UNIT`, one frame of
//! motion is the exact product `dir * speed_multiplier * dt_ms` with no
//! rounding anywhere.

pub mod entities;
pub mod geom;
pub mod random;
pub mod sim;
