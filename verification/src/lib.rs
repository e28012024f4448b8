//! A verified core for a small real-time 3D rendering harness.
//!
//! The library covers the transform and frame-pacing pipeline: camera basis
//! construction, perspective projection, matrix composition, animation-state
//! evolution, and the event-driven frame scheduler.  Scalars are fixed-point:
//! an `i64` holds a real value scaled by [`fixed::FX_ONE`].  Window, GPU and
//! event-pump plumbing is unverified glue that lives outside this crate and
//! talks to it in plain values.

pub mod animation;
pub mod camera;
pub mod composer;
pub mod fixed;
pub mod matrix;
pub mod projection;
pub mod scheduler;
pub mod vec3;
