//! Fixed-point coordinates.
//!
//! Vertex positions, colors and instance transforms are kept in exact
//! fixed-point form: an `i64` counting millionths, so that the value 1.0 is
//! `FP_ONE`.  All geometry and transform rules are stated and proved over
//! these integers; the conversion to `f32` for upload happens outside the
//! library, once, at the edge.

use vstd::prelude::*;

verus! {

/// The fixed-point unit: 1.0 in millionths.
pub const FP_ONE: i64 = 1_000_000;

/// Division truncating toward zero (the rounding the hardware `/` uses),
/// for a positive divisor.
pub open spec fn spec_div_trunc(n: int, d: int) -> int
    recommends
        d > 0,
{
    if n >= 0 {
        n / d
    } else {
        -((-n) / d)
    }
}

/// Divide `n` by the positive divisor `d`, truncating toward zero.
pub fn div_trunc(n: i64, d: i64) -> (r: i64)
    requires
        d > 0,
        -0x4000_0000_0000_0000 <= n <= 0x4000_0000_0000_0000,
    ensures
        r == spec_div_trunc(n as int, d as int),
{
    if n >= 0 {
        let q: u64 = (n as u64) / (d as u64);
        assert(q <= n as u64);
        q as i64
    } else {
        let m: i64 = -n;
        let q: u64 = (m as u64) / (d as u64);
        assert(q <= m as u64);
        -(q as i64)
    }
}

} // verus!
