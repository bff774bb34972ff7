//! Core of an interactive 3D sandbox: a free-look camera with pointer
//! capture, a live-resizable ground slab, and a bouncing ball that is kept
//! inside an invisible spherical boundary by corrective physics.
//!
//! All geometry is carried in fixed-point integers (hundredths of a world
//! unit), so every rule here is exact and machine-checked. The rendering
//! engine, the settings panel and the rigid-body integrator are external
//! collaborators: they hand this crate plain values and apply its decisions.

pub mod camera;
pub mod containment;
pub mod cursor;
pub mod ground;
pub mod math;
pub mod scene;
pub mod settings;
