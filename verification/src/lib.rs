//! Core state management for a single-pass, toggleable-pipeline renderer.
//!
//! The library owns the CPU-side model of every GPU resource: the surface
//! configuration, named geometry sets, per-instance transforms, texture
//! upload plans and the registry of pipeline variants.  Window events and
//! the per-frame acquire/encode/submit cycle are driven from outside; the
//! decisions they trigger are made here and are verified.

pub mod color;
pub mod error;
pub mod fixed;
pub mod frame;
pub mod geometry;
pub mod instance;
pub mod layout;
pub mod mesh;
pub mod pipeline;
pub mod surface;
pub mod texture;
