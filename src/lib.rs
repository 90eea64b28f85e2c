//! Scene and frame logic of an interactive solar-system renderer: mesh
//! topology, vertex layouts, the camera controller, the orbital model of the
//! sun and planets, and the per-frame surface and render-pass sequencing.
//!
//! The library works in exact integer units (microdegrees, micro-units of
//! length, microseconds); the renderer turns them into floating-point
//! transforms.
pub mod camera;
pub mod frame;
pub mod hdr;
pub mod layout;
pub mod mesh;
pub mod orbit;
pub mod passes;
pub mod scene;
