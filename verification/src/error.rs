//! Error taxonomy of the rendering core.

use vstd::prelude::*;

verus! {

/// Errors surfaced to the caller as typed results.
#[derive(Clone, Copy, Debug, PartialEq, Eq, Structural)]
pub enum RenderError {
    /// No graphics adapter satisfied the requested constraints (startup only, fatal).
    DeviceUnavailable,
    /// A pixel buffer did not match the dimensions it was declared with.
    InvalidImageData,
    /// A pipeline identifier was never registered.
    UnknownPipeline,
    /// A geometry set identifier was never registered.
    UnknownGeometry,
}

/// Outcome of acquiring a presentable frame target from the surface.
///
/// `Lost` is recoverable (reconfigure, then retry next tick), `OutOfMemory`
/// is fatal, and `Other` costs exactly one skipped frame.
#[derive(Clone, Copy, Debug, PartialEq, Eq, Structural)]
pub enum AcquireError {
    Lost,
    OutOfMemory,
    Other,
}

} // verus!
