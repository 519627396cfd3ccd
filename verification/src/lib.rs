//! A verified 2D viewport camera.
//!
//! The camera maps world-space placements to screen-space placements under
//! pan and zoom, with zoom optionally anchored at a screen point: the world
//! point under that screen point stays put while the scale changes. Input
//! trackers turn pointer and key events into camera commands. Coordinates
//! are exact rationals, so every stated law of the camera algebra holds
//! exactly, with no rounding.

pub mod camera;
pub mod laws;
pub mod rat;
pub mod scene;
