//! Core logic of a small real-time rendering demo: an orbit camera driven by
//! mouse input, a render-state lifecycle with shader hot-reload, a debounced
//! file-watch filter, cube geometry, the uniform-buffer layout, and texture
//! preparation.
//!
//! All quantities are held as plain integers in fixed-point units
//! (microradians for angles, thousandths for distances and pixel positions),
//! so that every update rule is stated and proved exactly. The surrounding
//! program converts these to the floating-point values the graphics stack
//! needs at its edge.

pub mod camera;
pub mod geometry;
pub mod layout;
pub mod pipeline;
pub mod render;
pub mod shell;
pub mod texture;
pub mod watch;
