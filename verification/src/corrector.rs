//! The injected coordinate corrector.
//!
//! The host that composes the window chooses how logical pixels are blown up
//! onto the screen; the adapter only needs the inverse map, from device
//! pixels back to logical display pixels. That map is injected as a value of
//! a type implementing [`PointCorrector`]: a pure function from `Point` to
//! `Point`, captured once per draining call.

use crate::geometry::Point;
use vstd::arithmetic::div_mod::lemma_div_is_ordered_by_denominator;
use vstd::prelude::*;

verus! {

/// A pure map from device coordinates to logical display coordinates.
pub trait PointCorrector: Sized {
    /// The points the correction is defined on; implementations restrict it
    /// only where machine arithmetic would overflow.
    spec fn in_domain(&self, p: Point) -> bool;

    /// The corrected point.
    spec fn correct_spec(&self, p: Point) -> Point;

    /// Maps a point in device coordinates to logical display coordinates.
    fn output_to_display(&self, p: Point) -> (r: Point)
        requires
            self.in_domain(p),
        ensures
            r == self.correct_spec(p),
    ;
}

/// Integer division truncating toward zero (the machine division of `i32`).
pub open spec fn div_toward_zero(a: int, b: int) -> int
    recommends
        b >= 1,
{
    if a >= 0 {
        a / b
    } else {
        -((-a) / b)
    }
}

fn div_i32_toward_zero(a: i32, b: u32) -> (r: i32)
    requires
        b >= 1,
    ensures
        r == div_toward_zero(a as int, b as int),
{
    if a >= 0 {
        proof {
            lemma_div_is_ordered_by_denominator(a as int, 1, b as int);
        }
        ((a as u32) / b) as i32
    } else {
        let m: u64 = (-(a as i64)) as u64;
        proof {
            lemma_div_is_ordered_by_denominator(m as int, 1, b as int);
        }
        let q: u64 = m / (b as u64);
        (-(q as i64)) as i32
    }
}

/// The corrector that leaves every point unchanged.
#[derive(Clone, Copy, Debug, PartialEq, Eq, Structural)]
pub struct IdentityCorrector;

impl PointCorrector for IdentityCorrector {
    open spec fn in_domain(&self, p: Point) -> bool {
        true
    }

    open spec fn correct_spec(&self, p: Point) -> Point {
        p
    }

    fn output_to_display(&self, p: Point) -> (r: Point) {
        p
    }
}

/// The output policy of the window: every logical pixel is drawn as a
/// `scale` by `scale` block, with `pixel_spacing` blank device pixels
/// between neighbouring blocks. The inverse map divides each device
/// coordinate by the pixel pitch `scale + pixel_spacing`, truncating toward
/// zero.
#[derive(Clone, Copy, Debug, PartialEq, Eq, Structural)]
pub struct OutputSettings {
    scale: u32,
    pixel_spacing: u32,
}

impl OutputSettings {
    #[verifier::type_invariant]
    spec fn inv(self) -> bool {
        1 <= self.scale && self.scale + self.pixel_spacing <= u32::MAX
    }

    /// Device pixels per logical pixel along each axis.
    pub closed spec fn pitch_spec(self) -> int {
        self.scale + self.pixel_spacing
    }

    pub fn new(scale: u32, pixel_spacing: u32) -> (r: Self)
        requires
            1 <= scale,
            scale + pixel_spacing <= u32::MAX,
        ensures
            r.pitch_spec() == scale + pixel_spacing,
    {
        OutputSettings { scale, pixel_spacing }
    }

    /// Device pixels per logical pixel along each axis.
    pub fn pitch(&self) -> (r: u32)
        ensures
            r == self.pitch_spec(),
            r >= 1,
    {
        proof {
            use_type_invariant(*self);
        }
        self.scale + self.pixel_spacing
    }
}

impl PointCorrector for OutputSettings {
    open spec fn in_domain(&self, p: Point) -> bool {
        true
    }

    open spec fn correct_spec(&self, p: Point) -> Point {
        Point {
            x: div_toward_zero(p.x as int, self.pitch_spec()) as i32,
            y: div_toward_zero(p.y as int, self.pitch_spec()) as i32,
        }
    }

    fn output_to_display(&self, p: Point) -> (r: Point) {
        let pitch = self.pitch();
        Point { x: div_i32_toward_zero(p.x, pitch), y: div_i32_toward_zero(p.y, pitch) }
    }
}

/// A corrector that rescales each axis and shifts by a fixed offset; its
/// domain leaves out only points whose image would overflow an `i32`.
#[derive(Clone, Copy, Debug, PartialEq, Eq, Structural)]
pub struct AffineCorrector {
    pub scale_x: i32,
    pub scale_y: i32,
    pub offset_x: i32,
    pub offset_y: i32,
}

impl PointCorrector for AffineCorrector {
    open spec fn in_domain(&self, p: Point) -> bool {
        i32::MIN <= p.x * self.scale_x + self.offset_x <= i32::MAX && i32::MIN <= p.y
            * self.scale_y + self.offset_y <= i32::MAX
    }

    open spec fn correct_spec(&self, p: Point) -> Point {
        Point {
            x: (p.x * self.scale_x + self.offset_x) as i32,
            y: (p.y * self.scale_y + self.offset_y) as i32,
        }
    }

    fn output_to_display(&self, p: Point) -> (r: Point) {
        proof {
            assert(-0x4000000000000000int <= (p.x as int) * (self.scale_x as int)
                <= 0x4000000000000000int && -0x4000000000000000int <= (p.y as int) * (self.scale_y
                as int) <= 0x4000000000000000int) by (nonlinear_arith)
                requires
                    i32::MIN <= p.x <= i32::MAX,
                    i32::MIN <= p.y <= i32::MAX,
                    i32::MIN <= self.scale_x <= i32::MAX,
                    i32::MIN <= self.scale_y <= i32::MAX,
            ;
        }
        let x: i64 = (p.x as i64) * (self.scale_x as i64) + (self.offset_x as i64);
        let y: i64 = (p.y as i64) * (self.scale_y as i64) + (self.offset_y as i64);
        Point { x: x as i32, y: y as i32 }
    }
}

} // verus!
