//! Pointer normalization and the clear-color mapping.
//!
//! A pointer position arrives in window pixel coordinates.  Each axis is
//! normalized to [0, 1] by dividing by the surface dimension and clamping.
//! The normalized value is kept as an exact fraction so that the clamping
//! and mapping rules can be stated and proved precisely; the conversion to
//! a floating-point channel happens outside the library.

use vstd::prelude::*;

verus! {

/// An exact color channel value: the fraction `num / den`, with
/// `0 <= num <= den` and `den > 0`, so the value always lies in [0, 1].
#[derive(Clone, Copy, Debug, PartialEq, Eq, Structural)]
pub struct Channel {
    pub num: u32,
    pub den: u32,
}

impl Channel {
    pub open spec fn wf(self) -> bool {
        self.den > 0 && self.num <= self.den
    }

    /// The channel holds exactly zero.
    pub open spec fn is_zero(self) -> bool {
        self.num == 0
    }

    /// The channel holds exactly one.
    pub open spec fn is_one(self) -> bool {
        self.num == self.den
    }
}

/// The fraction `clamp(p, 0, size) / size`: the normalized form of pixel
/// coordinate `p` on an axis of length `size`.
pub open spec fn spec_normalize(p: int, size: u32) -> Channel
    recommends
        size > 0,
{
    if p <= 0 {
        Channel { num: 0, den: size }
    } else if p >= size {
        Channel { num: size, den: size }
    } else {
        Channel { num: p as u32, den: size }
    }
}

/// Normalize a window-relative pixel coordinate to [0, 1] on an axis of
/// length `size`.  Positions outside [0, size] clamp to exactly 0 or
/// exactly 1; positions inside keep their exact fractional value.
pub fn normalize(p: i64, size: u32) -> (r: Channel)
    requires
        size > 0,
    ensures
        r == spec_normalize(p as int, size),
        r.wf(),
        r.den == size,
        p <= 0 ==> r.is_zero(),
        p >= size ==> r.is_one(),
        0 <= p <= size ==> r.num == p,
{
    if p <= 0 {
        Channel { num: 0, den: size }
    } else if p >= size as i64 {
        Channel { num: size, den: size }
    } else {
        Channel { num: p as u32, den: size }
    }
}

/// The clear color of one frame: red, green, blue, alpha as exact fractions.
#[derive(Clone, Copy, Debug, PartialEq, Eq, Structural)]
pub struct ClearColor {
    pub r: Channel,
    pub g: Channel,
    pub b: Channel,
    pub a: Channel,
}

impl ClearColor {
    pub open spec fn wf(self) -> bool {
        self.r.wf() && self.g.wf() && self.b.wf() && self.a.wf()
    }
}

/// Green is fixed at 2/10 and alpha at 1; they never follow the pointer.
pub open spec fn spec_fixed_green() -> Channel {
    Channel { num: 2, den: 10 }
}

pub open spec fn spec_fixed_alpha() -> Channel {
    Channel { num: 1, den: 1 }
}

/// Red before any pointer movement was seen: 1/10.
pub open spec fn spec_default_red() -> Channel {
    Channel { num: 1, den: 10 }
}

/// Blue before any pointer movement was seen: 3/10.
pub open spec fn spec_default_blue() -> Channel {
    Channel { num: 3, den: 10 }
}

/// The clear color derived from the last normalized pointer position:
/// normalized Y feeds red, normalized X feeds blue, green and alpha are
/// fixed.  Before any pointer movement the red/blue defaults apply.
pub open spec fn spec_clear_color(pointer: Option<(Channel, Channel)>) -> ClearColor {
    match pointer {
        Some((nx, ny)) => ClearColor {
            r: ny,
            g: spec_fixed_green(),
            b: nx,
            a: spec_fixed_alpha(),
        },
        None => ClearColor {
            r: spec_default_red(),
            g: spec_fixed_green(),
            b: spec_default_blue(),
            a: spec_fixed_alpha(),
        },
    }
}

/// Map the last normalized pointer position (if any) to the frame's clear
/// color.
pub fn clear_color(pointer: Option<(Channel, Channel)>) -> (c: ClearColor)
    requires
        pointer matches Some(p) ==> p.0.wf() && p.1.wf(),
    ensures
        c == spec_clear_color(pointer),
        c.wf(),
{
    match pointer {
        Some((nx, ny)) => ClearColor {
            r: ny,
            g: Channel { num: 2, den: 10 },
            b: nx,
            a: Channel { num: 1, den: 1 },
        },
        None => ClearColor {
            r: Channel { num: 1, den: 10 },
            g: Channel { num: 2, den: 10 },
            b: Channel { num: 3, den: 10 },
            a: Channel { num: 1, den: 1 },
        },
    }
}

/// Clamping law: a pointer coordinate outside [0, size] normalizes to
/// exactly zero or exactly one, never to a value strictly between.
pub proof fn lemma_out_of_range_clamps_exactly(p: int, size: u32)
    requires
        size > 0,
        p < 0 || p > size,
    ensures
        p < 0 ==> spec_normalize(p, size).is_zero(),
        p > size ==> spec_normalize(p, size).is_one(),
{
}

} // verus!
