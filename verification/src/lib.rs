//! Verified core of a small planet scene: the one-time terrain build, the
//! tuning table of its noise octaves, and the camera's per-frame decisions.
//!
//! The library decides and keeps order; it holds no floating-point value.
//! Vertices and pointer motions are carried as values of the caller's type.

pub mod camera;
pub mod octaves;
pub mod terrain;
