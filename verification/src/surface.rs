//! Surface configuration: the width/height/format/present-mode record that
//! the presentable surface is configured with, and the resize rule.

use vstd::prelude::*;

verus! {

/// Pixel format of the surface, as reported by the adapter at startup.
#[derive(Clone, Copy, Debug, PartialEq, Eq, Structural)]
pub enum SurfaceFormat {
    Bgra8UnormSrgb,
    Rgba8UnormSrgb,
    Bgra8Unorm,
    Rgba8Unorm,
}

/// Presentation scheduling mode.
#[derive(Clone, Copy, Debug, PartialEq, Eq, Structural)]
pub enum PresentMode {
    Fifo,
    Mailbox,
    Immediate,
}

/// The current surface configuration.
///
/// Invariant: `width` and `height` always match the last non-degenerate
/// window size; a resize to a zero dimension is rejected and the previous
/// configuration retained.
#[derive(Clone, Copy, Debug, PartialEq, Eq, Structural)]
pub struct SurfaceConfig {
    pub width: u32,
    pub height: u32,
    pub format: SurfaceFormat,
    pub present_mode: PresentMode,
}

impl SurfaceConfig {
    /// Both dimensions are positive.
    pub open spec fn wf(self) -> bool {
        self.width > 0 && self.height > 0
    }

    /// Build the startup configuration from the initial window size.
    pub fn new(width: u32, height: u32, format: SurfaceFormat, present_mode: PresentMode) -> (r:
        SurfaceConfig)
        requires
            width > 0,
            height > 0,
        ensures
            r == (SurfaceConfig { width, height, format, present_mode }),
            r.wf(),
    {
        SurfaceConfig { width, height, format, present_mode }
    }

    /// Apply a window resize.  A degenerate (zero-dimension) size is
    /// rejected: the configuration is left exactly as it was and the caller
    /// must not reconfigure the surface.  Otherwise width and height take
    /// the new size, format and present mode are kept, and the caller
    /// reconfigures.  Returns whether the configuration changed.
    pub fn reconfigure(&mut self, new_width: u32, new_height: u32) -> (changed: bool)
        requires
            old(self).wf(),
        ensures
            final(self).wf(),
            *final(self) == spec_reconfigured(*old(self), new_width, new_height),
            changed == (new_width > 0 && new_height > 0),
            (new_width == 0 || new_height == 0) ==> *final(self) == *old(self),
            changed ==> *final(self) == (SurfaceConfig {
                width: new_width,
                height: new_height,
                ..*old(self)
            }),
    {
        if new_width > 0 && new_height > 0 {
            self.width = new_width;
            self.height = new_height;
            true
        } else {
            false
        }
    }
}

/// A resize with a zero dimension leaves the surface configuration unchanged.
pub proof fn lemma_degenerate_resize_is_rejected(c: SurfaceConfig, w: u32, h: u32)
    requires
        c.wf(),
        w == 0 || h == 0,
    ensures
        spec_reconfigured(c, w, h) == c,
{
}

/// The configuration that `reconfigure` leaves behind.
pub open spec fn spec_reconfigured(c: SurfaceConfig, w: u32, h: u32) -> SurfaceConfig {
    if w > 0 && h > 0 {
        SurfaceConfig { width: w, height: h, ..c }
    } else {
        c
    }
}

} // verus!
