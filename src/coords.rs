//! Pixel space, the normalized render plane and texture UV space.
//!
//! Render-plane and texture coordinates are kept as exact fractions, so the
//! conversions between the three spaces lose nothing.

use vstd::prelude::*;

verus! {

/// An exact fraction `num / den`. Its `==` compares the two parts as
/// stored; `same_value` compares the numbers they stand for.
#[derive(Clone, Copy, Debug, PartialEq, Eq, Structural)]
pub struct Ratio {
    pub num: i64,
    pub den: u32,
}

impl Ratio {
    /// A fraction is usable when its denominator is positive.
    pub open spec fn wf(self) -> bool {
        self.den > 0
    }

    /// The number the fraction stands for equals that of `other`. (`==`
    /// compares numerators and denominators, so `1/2` and `2/4` differ there.)
    pub open spec fn same_value_as(self, other: Ratio) -> bool {
        self.num * other.den == other.num * self.den
    }

    /// Whether the two fractions stand for the same number.
    pub fn same_value(&self, other: &Ratio) -> (r: bool)
        ensures
            r == self.same_value_as(*other),
    {
        proof {
            assert(-0x8000_0000_0000_0000 * 0x1_0000_0000 <= self.num * other.den
                <= 0x8000_0000_0000_0000 * 0x1_0000_0000) by (nonlinear_arith)
                requires
                    -0x8000_0000_0000_0000 <= self.num < 0x8000_0000_0000_0000,
                    0 <= other.den < 0x1_0000_0000,
            ;
            assert(-0x8000_0000_0000_0000 * 0x1_0000_0000 <= other.num * self.den
                <= 0x8000_0000_0000_0000 * 0x1_0000_0000) by (nonlinear_arith)
                requires
                    -0x8000_0000_0000_0000 <= other.num < 0x8000_0000_0000_0000,
                    0 <= self.den < 0x1_0000_0000,
            ;
        }
        (self.num as i128) * (other.den as i128) == (other.num as i128) * (self.den as i128)
    }

    /// The whole number `n` as a fraction.
    pub fn whole(n: i32) -> (r: Ratio)
        ensures
            r.num == n,
            r.den == 1,
    {
        Ratio { num: n as i64, den: 1 }
    }
}

/// An offset from the top-left corner of a surface, `y` growing downward.
#[derive(Clone, Copy, Debug, PartialEq, Eq, Structural)]
pub struct PixelCoordinates {
    pub x: i32,
    pub y: i32,
}

/// The extent of a texture or surface in pixels.
#[derive(Clone, Copy, Debug, PartialEq, Eq, Structural)]
pub struct PixelDimensions {
    pub width: u32,
    pub height: u32,
}

impl PixelDimensions {
    /// Both extents are positive, as for every texture or surface that exists.
    pub open spec fn non_empty(self) -> bool {
        self.width > 0 && self.height > 0
    }
}

/// A point of the normalized render plane: `[-1, 1]` on each axis over the
/// target, `y` growing upward.
#[derive(Clone, Copy, Debug, PartialEq, Eq, Structural)]
pub struct RenderPlaneCoordinates {
    pub x: Ratio,
    pub y: Ratio,
}

/// `-1 + 2x/width`, as a fraction over `width`.
pub open spec fn plane_of_pixel_x(x: int, width: int) -> Ratio {
    Ratio { num: (2 * x - width) as i64, den: width as u32 }
}

/// `1 - 2y/height`, as a fraction over `height`.
pub open spec fn plane_of_pixel_y(y: int, height: int) -> Ratio {
    Ratio { num: (height - 2 * y) as i64, den: height as u32 }
}

/// Where a pixel lands on the render plane of a target of dimensions `d`.
pub open spec fn render_plane_of(p: PixelCoordinates, d: PixelDimensions) -> RenderPlaneCoordinates {
    RenderPlaneCoordinates {
        x: plane_of_pixel_x(p.x as int, d.width as int),
        y: plane_of_pixel_y(p.y as int, d.height as int),
    }
}

/// The pixel column of the plane abscissa `c`: `floor((c + 1) * width / 2)`.
pub open spec fn pixel_x_of_plane(c: Ratio, width: int) -> int {
    ((c.num + c.den) * width) / (2 * c.den)
}

/// The pixel row of the plane ordinate `c`: `floor((1 - c) * height / 2)`.
pub open spec fn pixel_y_of_plane(c: Ratio, height: int) -> int {
    ((c.den - c.num) * height) / (2 * c.den)
}

/// Where a point of the render plane of a target of dimensions `d` lies in pixels.
pub open spec fn pixel_of_plane(c: RenderPlaneCoordinates, d: PixelDimensions) -> PixelCoordinates {
    PixelCoordinates {
        x: pixel_x_of_plane(c.x, d.width as int) as i32,
        y: pixel_y_of_plane(c.y, d.height as int) as i32,
    }
}

impl PixelCoordinates {
    /// The top-left corner, `(0, 0)`.
    pub fn top_left() -> (r: PixelCoordinates)
        ensures
            r.x == 0,
            r.y == 0,
    {
        PixelCoordinates { x: 0, y: 0 }
    }

    /// The point of the render plane of a target of the given dimensions
    /// that this pixel maps to.
    pub fn to_render_plane_coordinates(&self, plane_pixel_dimensions: &PixelDimensions) -> (r:
        RenderPlaneCoordinates)
        requires
            plane_pixel_dimensions.non_empty(),
        ensures
            r == render_plane_of(*self, *plane_pixel_dimensions),
            r.x.num == 2 * self.x - plane_pixel_dimensions.width,
            r.x.den == plane_pixel_dimensions.width,
            r.y.num == plane_pixel_dimensions.height - 2 * self.y,
            r.y.den == plane_pixel_dimensions.height,
    {
        let w = plane_pixel_dimensions.width;
        let h = plane_pixel_dimensions.height;
        let x = RenderPlaneCoordinates {
            x: Ratio { num: 2 * (self.x as i64) - (w as i64), den: w },
            y: Ratio { num: (h as i64) - 2 * (self.y as i64), den: h },
        };
        x
    }
}

/// `floor(n / d)` for a positive divisor.
fn floor_div(n: i128, d: i128) -> (q: i128)
    requires
        0 < d <= 0x1_0000_0000_0000,
        -0x10_0000_0000_0000_0000_0000_0000 < n < 0x10_0000_0000_0000_0000_0000_0000,
    ensures
        q == n / d,
{
    if n >= 0 {
        n / d
    } else {
        let m = -n;
        let q0 = (m + d - 1) / d;
        proof {
            let q = n / d;
            let r = n % d;
            vstd::arithmetic::div_mod::lemma_fundamental_div_mod(n as int, d as int);
            assert(0 <= r < d);
            assert(m + d - 1 == (-q) * d + (d - 1 - r)) by (nonlinear_arith)
                requires
                    n == d * q + r,
                    m == -n,
            ;
            vstd::arithmetic::div_mod::lemma_fundamental_div_mod_converse_div(
                (m + d - 1) as int,
                d as int,
                -q,
                d - 1 - r,
            );
            assert(q0 == -q);
            assert(0 <= m + d - 1);
            let t = (m + d - 1) as int;
            assert(t / (d as int) <= t) by (nonlinear_arith)
                requires
                    d > 0,
                    t >= 0,
            ;
        }
        -q0
    }
}

/// `floor(num / den)` as a pixel offset, when it fits.
fn pixel_offset(num: i128, den: i128) -> (r: i32)
    requires
        0 < den <= 0x1_0000_0000_0000,
        -0x10_0000_0000_0000_0000_0000_0000 < num < 0x10_0000_0000_0000_0000_0000_0000,
        i32::MIN <= num / den <= i32::MAX,
    ensures
        r == num / den,
{
    floor_div(num, den) as i32
}

impl RenderPlaneCoordinates {
    /// The centre of the plane, `(0, 0)`.
    pub fn origin() -> (r: RenderPlaneCoordinates)
        ensures
            r.x.num == 0 && r.x.den == 1,
            r.y.num == 0 && r.y.den == 1,
    {
        RenderPlaneCoordinates { x: Ratio::whole(0), y: Ratio::whole(0) }
    }

    /// The top-left corner, `(-1, 1)`.
    pub fn top_left() -> (r: RenderPlaneCoordinates)
        ensures
            r.x.num == -1 && r.x.den == 1,
            r.y.num == 1 && r.y.den == 1,
    {
        RenderPlaneCoordinates { x: Ratio::whole(-1), y: Ratio::whole(1) }
    }

    /// The top-right corner, `(1, 1)`.
    pub fn top_right() -> (r: RenderPlaneCoordinates)
        ensures
            r.x.num == 1 && r.x.den == 1,
            r.y.num == 1 && r.y.den == 1,
    {
        RenderPlaneCoordinates { x: Ratio::whole(1), y: Ratio::whole(1) }
    }

    /// The bottom-left corner, `(-1, -1)`.
    pub fn bottom_left() -> (r: RenderPlaneCoordinates)
        ensures
            r.x.num == -1 && r.x.den == 1,
            r.y.num == -1 && r.y.den == 1,
    {
        RenderPlaneCoordinates { x: Ratio::whole(-1), y: Ratio::whole(-1) }
    }

    /// The bottom-right corner, `(1, -1)`.
    pub fn bottom_right() -> (r: RenderPlaneCoordinates)
        ensures
            r.x.num == 1 && r.x.den == 1,
            r.y.num == -1 && r.y.den == 1,
    {
        RenderPlaneCoordinates { x: Ratio::whole(1), y: Ratio::whole(-1) }
    }

    /// The pixel of a target of the given dimensions that holds this point,
    /// rounding toward the top-left; the inverse of
    /// `PixelCoordinates::to_render_plane_coordinates`.
    pub fn to_pixel_coordinates(&self, plane_pixel_dimensions: &PixelDimensions) -> (r:
        PixelCoordinates)
        requires
            self.x.wf(),
            self.y.wf(),
            i32::MIN <= pixel_x_of_plane(self.x, plane_pixel_dimensions.width as int) <= i32::MAX,
            i32::MIN <= pixel_y_of_plane(self.y, plane_pixel_dimensions.height as int) <= i32::MAX,
        ensures
            r.x == pixel_x_of_plane(self.x, plane_pixel_dimensions.width as int),
            r.y == pixel_y_of_plane(self.y, plane_pixel_dimensions.height as int),
            r == pixel_of_plane(*self, *plane_pixel_dimensions),
    {
        let w = plane_pixel_dimensions.width as i128;
        let h = plane_pixel_dimensions.height as i128;
        let xn = self.x.num as i128;
        let xd = self.x.den as i128;
        let yn = self.y.num as i128;
        let yd = self.y.den as i128;
        proof {
            assert(-0x10_0000_0000_0000_0000_0000_0000 < (xn + xd) * w < 0x10_0000_0000_0000_0000_0000_0000)
                by (nonlinear_arith)
                requires
                    -0x8000_0000_0000_0000 <= xn < 0x8000_0000_0000_0000,
                    0 < xd <= 0xffff_ffff,
                    0 <= w <= 0xffff_ffff,
            ;
            assert(-0x10_0000_0000_0000_0000_0000_0000 < (yd - yn) * h < 0x10_0000_0000_0000_0000_0000_0000)
                by (nonlinear_arith)
                requires
                    -0x8000_0000_0000_0000 <= yn < 0x8000_0000_0000_0000,
                    0 < yd <= 0xffff_ffff,
                    0 <= h <= 0xffff_ffff,
            ;
        }
        let x = pixel_offset((xn + xd) * w, 2 * xd);
        let y = pixel_offset((yd - yn) * h, 2 * yd);
        PixelCoordinates { x, y }
    }
}

/// Converting a pixel to the render plane and back gives the same pixel, so
/// converting that pixel to the render plane again gives the same point.
pub proof fn lemma_render_plane_round_trip(p: PixelCoordinates, d: PixelDimensions)
    requires
        d.non_empty(),
    ensures
        pixel_of_plane(render_plane_of(p, d), d) == p,
        render_plane_of(pixel_of_plane(render_plane_of(p, d), d), d) == render_plane_of(p, d),
{
    let w = d.width as int;
    let h = d.height as int;
    let c = render_plane_of(p, d);
    assert(c.x.num + c.x.den == 2 * p.x);
    assert((2 * p.x) * w == (2 * w) * p.x) by (nonlinear_arith);
    vstd::arithmetic::div_mod::lemma_div_multiples_vanish(p.x as int, 2 * w);
    assert(c.y.den - c.y.num == 2 * p.y);
    assert((2 * p.y) * h == (2 * h) * p.y) by (nonlinear_arith);
    vstd::arithmetic::div_mod::lemma_div_multiples_vanish(p.y as int, 2 * h);
}

} // verus!
