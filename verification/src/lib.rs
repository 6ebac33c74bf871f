//! Camera-facing animated billboard characters and an orbital follow camera.
//!
//! The crate keeps the view-dependent state of 2D characters rendered inside a
//! 3D scene: it classifies the discrete direction a sprite must face from the
//! continuous angle between the character's heading and the viewer, advances
//! frame sequences while preserving animation phase across direction changes,
//! and maintains a clamped, smoothed spherical offset for a camera that orbits
//! a tracked target.
//!
//! All geometry and time are fixed-point: spatial coordinates, angles and
//! speeds are `i64` multiples of `1/fixed::SCALE`, and animation time is in
//! microseconds. The rendering engine converts at the boundary.

pub mod animation;
pub mod camera;
pub mod character;
pub mod fixed;
pub mod table;
pub mod vec3;
