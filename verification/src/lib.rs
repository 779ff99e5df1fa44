//! Frame pacing, device selection, presentation-chain planning and mesh
//! indexing for a small Vulkan scene viewer.
//!
//! The decisions are made here, on plain values; the windowing and GPU calls
//! live with the application, which feeds their outcomes in and carries the
//! decisions out. Only `adapter` touches vulkano's own values.

pub mod adapter;
pub mod device;
pub mod frame;
pub mod keyboard;
pub mod mesh;
pub mod prerender;
pub mod renderer;
