//! Points of screen space and of fractal space, and the conversion of a
//! physical pixel offset into fractal units.
use vstd::prelude::*;
use crate::fixed::{
    floor_div, DENSITY_MAX, PIXEL_TO_FRACTAL, SCREEN_LIMIT, ZOOM_MAX, ZOOM_MIN,
};

verus! {

/// A point (or an offset) in UI space, in thousandths of a point; `y` grows
/// downwards.
#[derive(Clone, Copy, Debug, PartialEq, Eq, Structural)]
pub struct ScreenPoint {
    pub x: i64,
    pub y: i64,
}

/// A location in physical pixels, in millionths of a pixel: a UI offset
/// scaled by the pixel density.
#[derive(Clone, Copy, Debug, PartialEq, Eq, Structural)]
pub struct Position {
    pub x: i64,
    pub y: i64,
}

/// A point of the complex plane, each part in billionths of a fractal unit.
#[derive(Clone, Copy, Debug, PartialEq, Eq, Structural)]
pub struct ComplexCoordinate {
    pub re: i64,
    pub im: i64,
}

/// The screen rectangle that shows the fractal, and its pixel density.
#[derive(Clone, Copy, Debug, PartialEq, Eq, Structural)]
pub struct Viewport {
    /// Top-left corner.
    pub origin: ScreenPoint,
    /// Width and height.
    pub size: ScreenPoint,
    /// Physical pixels per UI point, in thousandths.
    pub pixels_per_point: i64,
}

pub open spec fn screen_ok(v: int) -> bool {
    -SCREEN_LIMIT <= v <= SCREEN_LIMIT
}

/// A difference of two coordinates that are `screen_ok`.
pub open spec fn offset_ok(v: int) -> bool {
    -2 * SCREEN_LIMIT <= v <= 2 * SCREEN_LIMIT
}

pub open spec fn density_ok(d: int) -> bool {
    1 <= d <= DENSITY_MAX
}

pub open spec fn zoom_ok(z: int) -> bool {
    ZOOM_MIN <= z <= ZOOM_MAX
}

/// Largest magnitude of a physical offset between two valid screen points.
pub open spec fn physical_bound() -> int {
    2 * SCREEN_LIMIT * DENSITY_MAX
}

/// A physical offset (millionths of a pixel) at a zoom, in fractal units,
/// rounded down.
pub open spec fn fractal_units(physical: int, zoom: int) -> int {
    (physical * PIXEL_TO_FRACTAL) / zoom
}

impl ScreenPoint {
    pub open spec fn valid(self) -> bool {
        screen_ok(self.x as int) && screen_ok(self.y as int)
    }

    pub open spec fn offset_valid(self) -> bool {
        offset_ok(self.x as int) && offset_ok(self.y as int)
    }

    /// `self - other`, coordinate by coordinate.
    pub fn minus(self, other: ScreenPoint) -> (r: ScreenPoint)
        requires
            self.valid(),
            other.valid(),
        ensures
            r.x == self.x - other.x,
            r.y == self.y - other.y,
            r.offset_valid(),
    {
        ScreenPoint { x: self.x - other.x, y: self.y - other.y }
    }
}

impl Position {
    pub open spec fn valid(self) -> bool {
        -physical_bound() <= self.x <= physical_bound() && -physical_bound() <= self.y
            <= physical_bound()
    }

    /// Scales a UI offset by the pixel density into physical pixels.
    pub fn from_screen_space(pixels_per_point: i64, screen_space: ScreenPoint) -> (r: Position)
        requires
            density_ok(pixels_per_point as int),
            screen_space.offset_valid(),
        ensures
            r.x == screen_space.x * pixels_per_point,
            r.y == screen_space.y * pixels_per_point,
            r.valid(),
    {
        proof {
            lemma_physical_bound(screen_space.x as int, pixels_per_point as int);
            lemma_physical_bound(screen_space.y as int, pixels_per_point as int);
        }
        Position { x: screen_space.x * pixels_per_point, y: screen_space.y * pixels_per_point }
    }

    /// `self - other`, coordinate by coordinate.
    pub fn sub(self, other: Position) -> (r: Position)
        requires
            self.valid(),
            other.valid(),
        ensures
            r.x == self.x - other.x,
            r.y == self.y - other.y,
    {
        Position { x: self.x - other.x, y: self.y - other.y }
    }

    /// The physical offset in fractal units at `zoom`, each part rounded down.
    pub fn div(self, zoom: i64) -> (r: ComplexCoordinate)
        requires
            self.valid(),
            zoom_ok(zoom as int),
        ensures
            r.re == fractal_units(self.x as int, zoom as int),
            r.im == fractal_units(self.y as int, zoom as int),
            -fractal_units_bound() <= r.re <= fractal_units_bound(),
            -fractal_units_bound() <= r.im <= fractal_units_bound(),
    {
        ComplexCoordinate { re: to_fractal_units(self.x, zoom), im: to_fractal_units(self.y, zoom) }
    }
}

/// Largest magnitude of `fractal_units` over a valid physical offset.
pub open spec fn fractal_units_bound() -> int {
    physical_bound() * PIXEL_TO_FRACTAL
}

fn to_fractal_units(physical: i64, zoom: i64) -> (r: i64)
    requires
        -physical_bound() <= physical <= physical_bound(),
        zoom_ok(zoom as int),
    ensures
        r == fractal_units(physical as int, zoom as int),
        -fractal_units_bound() <= r <= fractal_units_bound(),
{
    let q = floor_div(physical as i128 * PIXEL_TO_FRACTAL as i128, zoom as i128);
    proof {
        lemma_fractal_units_bound(physical as int, zoom as int);
    }
    q as i64
}

proof fn lemma_physical_bound(offset: int, density: int)
    requires
        offset_ok(offset),
        density_ok(density),
    ensures
        -physical_bound() <= offset * density <= physical_bound(),
{
    assert(-physical_bound() <= offset * density <= physical_bound()) by (nonlinear_arith)
        requires
            -2 * SCREEN_LIMIT <= offset <= 2 * SCREEN_LIMIT,
            1 <= density <= DENSITY_MAX,
    ;
}

/// Rounding down by a divisor of at least one never moves a value away from
/// zero.
pub proof fn lemma_div_shrinks(x: int, z: int)
    requires
        z >= 1,
    ensures
        x >= 0 ==> 0 <= x / z <= x,
        x < 0 ==> x <= x / z < 0,
{
    vstd::arithmetic::div_mod::lemma_fundamental_div_mod(x, z);
    let q = x / z;
    let r = x % z;
    assert(x >= 0 ==> 0 <= q <= x) by (nonlinear_arith)
        requires
            x == z * q + r,
            0 <= r < z,
            z >= 1,
    ;
    assert(x < 0 ==> x <= q < 0) by (nonlinear_arith)
        requires
            x == z * q + r,
            0 <= r < z,
            z >= 1,
    ;
}

proof fn lemma_fractal_units_bound(physical: int, zoom: int)
    requires
        -physical_bound() <= physical <= physical_bound(),
        zoom_ok(zoom),
    ensures
        -fractal_units_bound() <= fractal_units(physical, zoom) <= fractal_units_bound(),
{
    lemma_div_shrinks(physical * PIXEL_TO_FRACTAL, zoom);
}

impl Viewport {
    pub open spec fn valid(self) -> bool {
        &&& self.origin.valid()
        &&& self.size.x >= 0
        &&& self.size.y >= 0
        &&& screen_ok(self.origin.x + self.size.x)
        &&& screen_ok(self.origin.y + self.size.y)
        &&& density_ok(self.pixels_per_point as int)
    }

    pub open spec fn center_spec(self) -> ScreenPoint {
        ScreenPoint {
            x: (self.origin.x + self.size.x / 2) as i64,
            y: (self.origin.y + self.size.y / 2) as i64,
        }
    }

    /// The middle of the rectangle, rounded towards its top-left corner.
    pub fn center(&self) -> (r: ScreenPoint)
        requires
            self.valid(),
        ensures
            r == self.center_spec(),
            r.valid(),
    {
        ScreenPoint { x: self.origin.x + self.size.x / 2, y: self.origin.y + self.size.y / 2 }
    }
}

} // verus!
