//! Simulation core for a top-down arcade ship game.
//!
//! The core advances entity state in discrete ticks: it turns held-direction
//! input into acceleration on the ship's velocity, applies drag, integrates
//! positions on a fixed timestep with toroidal wrap-around against the
//! play-field bounds, keeps each entity's facing aligned with its velocity,
//! manages projectile fuses, and resolves projectile-versus-ship collisions
//! with axis-aligned bounding boxes.
//!
//! All quantities are exact fixed-point integers: coordinates, velocities and
//! sprite sizes are in milli-units (one thousandth of a world unit), scales
//! are in per-mille (1000 is scale 1.0), and times are in milliseconds. The
//! host that renders sprites and polls input converts at the boundary.

pub mod params;
pub mod math;
pub mod geom;
pub mod fuse;
pub mod motion;
pub mod world;
