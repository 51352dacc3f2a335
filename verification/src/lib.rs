//! A small interactive scene: one axis-aligned rectangle (the enemy), one
//! camera and one window. Each simulation tick, if the primary mouse button
//! is held and the cursor maps to a world point strictly inside the
//! rectangle, the rectangle's center jumps directly away from that point.
//!
//! The crate holds the scene model and the per-tick rules; an unverified
//! shell is expected to feed it the current input and cursor state once per
//! frame.

pub mod camera;
pub mod geometry;
pub mod hit;
pub mod scene;
pub mod window;
