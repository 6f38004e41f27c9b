//! Positions and scales as the protocol reports them, without floating point.

use vstd::prelude::*;

verus! {

/// The steps into which the protocol's fixed-point numbers divide one pixel.
pub const FIXED_PER_PIXEL: i64 = 256;

/// A position on a surface. Each coordinate counts steps of 1/256 of a pixel, which is
/// the unit in which the protocol sends positions.
#[derive(Clone, Copy, Debug, PartialEq, Eq, Structural)]
pub struct Point {
    pub x: i32,
    pub y: i32,
}

impl Default for Point {
    /// The origin of the surface.
    fn default() -> (point: Point)
        ensures
            point == (Point { x: 0, y: 0 }),
    {
        Point { x: 0, y: 0 }
    }
}

/// A scale factor, as the exact fraction `numerator / denominator`.
#[derive(Clone, Copy, Debug, PartialEq, Eq, Structural)]
pub struct Scale {
    pub numerator: i64,
    pub denominator: u32,
}

/// The denominator in which the fractional-scale protocol counts.
pub const FRACTIONAL_SCALE_DENOMINATOR: u32 = 120;

impl Scale {
    pub open spec fn spec_whole(factor: i32) -> Scale {
        Scale { numerator: factor as i64, denominator: 1 }
    }

    /// The scale of a whole factor.
    pub fn whole(factor: i32) -> (scale: Scale)
        ensures
            scale == Scale::spec_whole(factor),
    {
        Scale { numerator: factor as i64, denominator: 1 }
    }

    pub open spec fn spec_fractional(scale: u32) -> Scale {
        Scale { numerator: scale as i64, denominator: FRACTIONAL_SCALE_DENOMINATOR }
    }

    /// The scale of a number of 120ths.
    pub fn fractional(scale: u32) -> (result: Scale)
        ensures
            result == Scale::spec_fractional(scale),
    {
        Scale { numerator: scale as i64, denominator: FRACTIONAL_SCALE_DENOMINATOR }
    }
}

/// A whole factor is that many ones; a fractional scale counts in 120ths, so that 120 of
/// them are one.
pub proof fn lemma_scales_are_exact(factor: i32, scale: u32)
    ensures
        Scale::spec_whole(factor).numerator == factor * Scale::spec_whole(factor).denominator,
        Scale::spec_whole(factor).denominator == 1,
        Scale::spec_fractional(scale).numerator == scale,
        Scale::spec_fractional(scale).denominator == 120,
{
}

} // verus!
