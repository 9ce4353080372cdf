//! The view into fractal space and the mapping between screen points and
//! fractal coordinates under it.
use vstd::prelude::*;
use crate::fixed::{fits_i64, floor_div, FRACTAL_LIMIT, PARAM_LIMIT, PIXEL_TO_FRACTAL, ZOOM_MAX};
use crate::geometry::{
    density_ok, fractal_units, lemma_div_shrinks, zoom_ok, ComplexCoordinate, Position,
    ScreenPoint,
};

verus! {

/// Whether the iterated parameter is the Julia constant or the pixel's own
/// coordinate.
#[derive(Clone, Copy, Debug, PartialEq, Eq, Structural)]
pub enum FractalType {
    Julia,
    Mandelbrot,
}

/// The view descriptor: what part of fractal space is shown and how it is
/// coloured.
#[derive(Clone, Copy, Debug, PartialEq, Eq, Structural)]
pub struct State {
    /// Offset subtracted from `pixel / zoom`; see `screen_to_fractal`.
    pub center: ComplexCoordinate,
    /// Thousandths of a physical pixel per fractal unit.
    pub zoom: i64,
    pub julia_constant: ComplexCoordinate,
    pub contrast: i64,
    pub brightness: i64,
    pub gamma: i64,
    pub r: i64,
    pub g: i64,
    pub b: i64,
    pub high_quality: bool,
    pub fractal_type: FractalType,
}

pub open spec fn fractal_ok(v: int) -> bool {
    -FRACTAL_LIMIT <= v <= FRACTAL_LIMIT
}

pub open spec fn param_ok(v: int) -> bool {
    -PARAM_LIMIT <= v <= PARAM_LIMIT
}

impl ComplexCoordinate {
    pub open spec fn valid(self) -> bool {
        fractal_ok(self.re as int) && fractal_ok(self.im as int)
    }
}

impl State {
    pub open spec fn wf(self) -> bool {
        &&& zoom_ok(self.zoom as int)
        &&& self.center.valid()
        &&& self.julia_constant.valid()
        &&& param_ok(self.contrast as int)
        &&& param_ok(self.brightness as int)
        &&& param_ok(self.gamma as int)
        &&& param_ok(self.r as int)
        &&& param_ok(self.g as int)
        &&& param_ok(self.b as int)
    }

    /// The view shown at start-up.
    pub fn new() -> (s: State)
        ensures
            s.wf(),
            s.center.re == 0,
            s.center.im == 0,
            s.zoom == 3_000_000,
            s.julia_constant.re == -760_000_000,
            s.julia_constant.im == -80_000_000,
            s.contrast == 3_500,
            s.brightness == 0,
            s.gamma == 12_500,
            s.r == 1_600,
            s.g == 4_000,
            s.b == 10_000,
            s.high_quality,
            s.fractal_type == FractalType::Julia,
    {
        State {
            center: ComplexCoordinate { re: 0, im: 0 },
            zoom: 3_000_000,
            julia_constant: ComplexCoordinate { re: -760_000_000, im: -80_000_000 },
            contrast: 3_500,
            brightness: 0,
            gamma: 12_500,
            r: 1_600,
            g: 4_000,
            b: 10_000,
            high_quality: true,
            fractal_type: FractalType::Julia,
        }
    }

    /// The fractal coordinate of a screen point: its physical offset from the
    /// viewport origin divided by the zoom, minus `center`.
    pub open spec fn fractal_of(self, screen: ScreenPoint, origin: ScreenPoint, density: int) -> (
        int,
        int,
    ) {
        (
            fractal_units((screen.x - origin.x) * density, self.zoom as int) - self.center.re,
            fractal_units((screen.y - origin.y) * density, self.zoom as int) - self.center.im,
        )
    }

    /// The screen point of a fractal coordinate: the inverse of `fractal_of`,
    /// each division rounded down.
    pub open spec fn screen_of(self, point: (int, int), origin: ScreenPoint, density: int) -> (
        int,
        int,
    ) {
        (
            origin.x + ((point.0 + self.center.re) * self.zoom / PIXEL_TO_FRACTAL as int) / density,
            origin.y + ((point.1 + self.center.im) * self.zoom / PIXEL_TO_FRACTAL as int) / density,
        )
    }
}

/// Maps a screen point to fractal space: the offset from the viewport origin
/// is scaled by the pixel density, divided by the zoom, and `view.center` is
/// subtracted.
pub fn screen_to_fractal(
    screen: ScreenPoint,
    viewport_origin: ScreenPoint,
    pixel_density: i64,
    view: &State,
) -> (r: ComplexCoordinate)
    requires
        screen.valid(),
        viewport_origin.valid(),
        density_ok(pixel_density as int),
        view.wf(),
    ensures
        r.re == view.fractal_of(screen, viewport_origin, pixel_density as int).0,
        r.im == view.fractal_of(screen, viewport_origin, pixel_density as int).1,
{
    let offset = screen.minus(viewport_origin);
    let units = Position::from_screen_space(pixel_density, offset).div(view.zoom);
    ComplexCoordinate { re: units.re - view.center.re, im: units.im - view.center.im }
}

/// One part of `fractal_to_screen`, computed without overflow.
fn screen_axis(part: i64, center: i64, zoom: i64, origin: i64, density: i64) -> (r: i128)
    requires
        zoom_ok(zoom as int),
        density_ok(density as int),
    ensures
        r == origin + ((part + center) * zoom / (PIXEL_TO_FRACTAL as int)) / (density as int),
{
    let shifted: i128 = part as i128 + center as i128;
    assert(-0x1_0000_0000_0000_0000 * ZOOM_MAX <= shifted * zoom <= 0x1_0000_0000_0000_0000 * ZOOM_MAX)
        by (nonlinear_arith)
        requires
            -0x1_0000_0000_0000_0000 <= shifted <= 0x1_0000_0000_0000_0000,
            1 <= zoom <= ZOOM_MAX,
    ;
    let physical = floor_div(shifted * zoom as i128, PIXEL_TO_FRACTAL as i128);
    proof {
        lemma_div_shrinks(shifted * zoom, PIXEL_TO_FRACTAL as int);
    }
    let points = floor_div(physical, density as i128);
    proof {
        lemma_div_shrinks(physical as int, density as int);
    }
    origin as i128 + points
}

/// Maps a fractal coordinate back to the screen; `None` when the screen point
/// does not fit in an `i64`.
pub fn fractal_to_screen(
    point: ComplexCoordinate,
    viewport_origin: ScreenPoint,
    pixel_density: i64,
    view: &State,
) -> (r: Option<ScreenPoint>)
    requires
        density_ok(pixel_density as int),
        view.wf(),
    ensures
        r is Some <==> fits_i64(
            view.screen_of((point.re as int, point.im as int), viewport_origin, pixel_density as int).0,
        ) && fits_i64(
            view.screen_of((point.re as int, point.im as int), viewport_origin, pixel_density as int).1,
        ),
        r matches Some(s) ==> s.x == view.screen_of(
            (point.re as int, point.im as int),
            viewport_origin,
            pixel_density as int,
        ).0 && s.y == view.screen_of(
            (point.re as int, point.im as int),
            viewport_origin,
            pixel_density as int,
        ).1,
{
    let x = screen_axis(point.re, view.center.re, view.zoom, viewport_origin.x, pixel_density);
    let y = screen_axis(point.im, view.center.im, view.zoom, viewport_origin.y, pixel_density);
    if i64::MIN as i128 <= x && x <= i64::MAX as i128 && i64::MIN as i128 <= y && y
        <= i64::MAX as i128 {
        Some(ScreenPoint { x: x as i64, y: y as i64 })
    } else {
        None
    }
}

} // verus!
