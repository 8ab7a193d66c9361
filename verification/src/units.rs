//! Fixed-point scalars and 2D vectors.
//!
//! One world unit (or one screen pixel, or a scale factor of 1.0) is
//! `FX_ONE` in fixed-point representation. A value such as 2.5 is written
//! `2_500_000`.

use vstd::prelude::*;

verus! {

/// The fixed-point unit: all fractional quantities are scaled by this.
pub const FX_ONE: i64 = 1_000_000;

/// A 2D vector of fixed-point coordinates (world space or screen space).
#[derive(Clone, Copy, Debug, PartialEq, Eq, Structural)]
pub struct Vec2Fx {
    pub x: i64,
    pub y: i64,
}

impl Vec2Fx {
    /// The origin.
    pub fn zero() -> (r: Vec2Fx)
        ensures
            r.x == 0,
            r.y == 0,
    {
        Vec2Fx { x: 0, y: 0 }
    }
}

/// Clamps `v` into the inclusive interval `[lo, hi]`.
pub open spec fn spec_clamp_i64(v: int, lo: int, hi: int) -> int {
    if v < lo {
        lo
    } else if v > hi {
        hi
    } else {
        v
    }
}

/// Executable clamp, exact against `spec_clamp_i64`.
pub fn clamp_i64(v: i64, lo: i64, hi: i64) -> (r: i64)
    requires
        lo <= hi,
    ensures
        r == spec_clamp_i64(v as int, lo as int, hi as int),
{
    if v < lo {
        lo
    } else if v > hi {
        hi
    } else {
        v
    }
}

} // verus!
