//! Laws that relate the transforms and the controller's operations.
use vstd::prelude::*;
use crate::fixed::{fits_i64, PIXEL_TO_FRACTAL, ZOOM_MAX};
use crate::geometry::{
    density_ok, fractal_units, offset_ok, zoom_ok, ComplexCoordinate, ScreenPoint, Viewport,
};
use crate::view::{fractal_ok, State};
use crate::escape::{escape_index, max_iter, orbit, outside, LOW_RADIUS};

verus! {

/// `back` lies at most one rounding step before `start` on a screen axis:
/// the rounding of the transform and of its inverse together lose less than
/// `(zoom + PIXEL_TO_FRACTAL) / (density * PIXEL_TO_FRACTAL) + 1` units.
pub open spec fn within_round_trip(start: int, back: int, zoom: int, density: int) -> bool {
    &&& back <= start
    &&& (start - back) * density * PIXEL_TO_FRACTAL < zoom + PIXEL_TO_FRACTAL + density
        * PIXEL_TO_FRACTAL
}

proof fn lemma_axis_round_trip(u: int, density: int, zoom: int)
    requires
        density_ok(density),
        zoom_ok(zoom),
    ensures
        within_round_trip(
            u,
            (fractal_units(u * density, zoom) * zoom / (PIXEL_TO_FRACTAL as int)) / density,
            zoom,
            density,
        ),
{
    let k = PIXEL_TO_FRACTAL as int;
    let a = u * density;
    let f = fractal_units(a, zoom);
    let g = f * zoom / k;
    let h = g / density;
    vstd::arithmetic::div_mod::lemma_fundamental_div_mod(a * k, zoom);
    vstd::arithmetic::div_mod::lemma_fundamental_div_mod(f * zoom, k);
    vstd::arithmetic::div_mod::lemma_fundamental_div_mod(g, density);
    let r1 = (a * k) % zoom;
    let r2 = (f * zoom) % k;
    let r3 = g % density;
    assert(f * zoom <= a * k < f * zoom + zoom) by (nonlinear_arith)
        requires
            a * k == zoom * f + r1,
            0 <= r1 < zoom,
    ;
    assert(g * k <= f * zoom < g * k + k) by (nonlinear_arith)
        requires
            f * zoom == k * g + r2,
            0 <= r2 < k,
    ;
    assert(h * density <= g < h * density + density) by (nonlinear_arith)
        requires
            g == density * h + r3,
            0 <= r3 < density,
    ;
    assert(h <= u) by (nonlinear_arith)
        requires
            g * k <= f * zoom,
            f * zoom <= a * k,
            a == u * density,
            h * density <= g,
            k > 0,
            density > 0,
    ;
    assert((u - h) * density * k < zoom + k + density * k) by (nonlinear_arith)
        requires
            a * k < f * zoom + zoom,
            f * zoom < g * k + k,
            g < h * density + density,
            a == u * density,
            k > 0,
    ;
}

/// Mapping a screen point into fractal space and back gives the point again,
/// up to the rounding of the two maps (`within_round_trip` on each axis), and
/// the result always fits in an `i64`.
pub proof fn lemma_round_trip(view: State, p: ScreenPoint, origin: ScreenPoint, density: int)
    requires
        view.wf(),
        p.valid(),
        origin.valid(),
        density_ok(density),
    ensures
        ({
            let back = view.screen_of(view.fractal_of(p, origin, density), origin, density);
            &&& within_round_trip(p.x as int, back.0, view.zoom as int, density)
            &&& within_round_trip(p.y as int, back.1, view.zoom as int, density)
            &&& fits_i64(back.0)
            &&& fits_i64(back.1)
        }),
{
    lemma_axis_round_trip(p.x - origin.x, density, view.zoom as int);
    lemma_axis_round_trip(p.y - origin.y, density, view.zoom as int);
    let f = view.fractal_of(p, origin, density);
    assert(f.0 + view.center.re == fractal_units((p.x - origin.x) * density, view.zoom as int));
    assert(f.1 + view.center.im == fractal_units((p.y - origin.y) * density, view.zoom as int));
    let back = view.screen_of(f, origin, density);
    lemma_round_trip_slack(p.x as int, back.0, view.zoom as int, density);
    lemma_round_trip_slack(p.y as int, back.1, view.zoom as int, density);
}

/// The rounding slack of a round trip is below `zoom / PIXEL_TO_FRACTAL + 2`.
proof fn lemma_round_trip_slack(start: int, back: int, zoom: int, density: int)
    requires
        within_round_trip(start, back, zoom, density),
        zoom_ok(zoom),
        density_ok(density),
    ensures
        start - back <= ZOOM_MAX / PIXEL_TO_FRACTAL + 2,
{
    let k = PIXEL_TO_FRACTAL as int;
    assert(start - back <= ZOOM_MAX / PIXEL_TO_FRACTAL + 2) by (nonlinear_arith)
        requires
            (start - back) * density * k < zoom + k + density * k,
            1 <= zoom <= ZOOM_MAX,
            1 <= density,
            k == PIXEL_TO_FRACTAL,
            0 <= start - back,
    ;
}

/// A primary click exactly at the viewport's center leaves the view as it
/// was.
pub proof fn lemma_click_at_center(view: State, viewport: Viewport)
    requires
        view.wf(),
        viewport.valid(),
    ensures
        view.recentered(viewport.center_spec(), viewport) == view,
{
    let moved = view.recentered(viewport.center_spec(), viewport);
    assert(moved.center == view.center);
}

/// A primary double-click followed by a secondary double-click gives back
/// the zoom, up to one unit of rounding, and exactly when the zoom is a
/// multiple of 5; nothing else changes.
pub proof fn lemma_zoom_in_then_out(view: State)
    requires
        view.wf(),
        view.zoom * 6 / 5 <= ZOOM_MAX,
    ensures
        view.zoomed_in().zoomed_out().zoom <= view.zoom,
        view.zoomed_in().zoomed_out().zoom >= view.zoom - 1,
        view.zoom % 5 == 0 ==> view.zoomed_in().zoomed_out().zoom == view.zoom,
        view.zoomed_in().zoomed_out() == view.with_zoom(view.zoomed_in().zoomed_out().zoom as int),
{
    let z = view.zoom as int;
    let q = z * 6 / 5;
    vstd::arithmetic::div_mod::lemma_fundamental_div_mod(z * 6, 5);
    vstd::arithmetic::div_mod::lemma_fundamental_div_mod(q * 5, 6);
    let back = q * 5 / 6;
    assert(z - 1 <= back <= z) by (nonlinear_arith)
        requires
            z * 6 == 5 * q + (z * 6) % 5,
            0 <= (z * 6) % 5 < 5,
            q * 5 == 6 * back + (q * 5) % 6,
            0 <= (q * 5) % 6 < 6,
    ;
    if z % 5 == 0 {
        vstd::arithmetic::div_mod::lemma_fundamental_div_mod(z, 5);
        assert(back == z) by (nonlinear_arith)
            requires
                z == 5 * (z / 5),
                z * 6 == 5 * q + (z * 6) % 5,
                0 <= (z * 6) % 5 < 5,
                q * 5 == 6 * back + (q * 5) % 6,
                0 <= (q * 5) % 6 < 6,
        ;
    }
}

/// Two successive drags by `d1` and `d2` move `center` as one drag by
/// `d1 + d2` does, up to one unit of rounding on each axis, and exactly when
/// the first drag's physical offset on an axis is a whole number of fractal
/// units. The law is stated where no move reaches the representable limit
/// of `center`.
pub proof fn lemma_drag_additive(view: State, d1: ScreenPoint, d2: ScreenPoint, density: int)
    requires
        view.wf(),
        density_ok(density),
        d1.offset_valid(),
        d2.offset_valid(),
        offset_ok(d1.x + d2.x),
        offset_ok(d1.y + d2.y),
        fractal_ok(view.center.re + fractal_units(d1.x * density, view.zoom as int)),
        fractal_ok(view.center.re + fractal_units(d1.x * density, view.zoom as int)
            + fractal_units(d2.x * density, view.zoom as int)),
        fractal_ok(view.center.re + fractal_units((d1.x + d2.x) * density, view.zoom as int)),
        fractal_ok(view.center.im - fractal_units(d1.y * density, view.zoom as int)),
        fractal_ok(view.center.im - fractal_units(d1.y * density, view.zoom as int)
            - fractal_units(d2.y * density, view.zoom as int)),
        fractal_ok(view.center.im - fractal_units((d1.y + d2.y) * density, view.zoom as int)),
    ensures
        ({
            let two = view.dragged(d1, density).dragged(d2, density);
            let one = view.dragged(
                ScreenPoint { x: (d1.x + d2.x) as i64, y: (d1.y + d2.y) as i64 },
                density,
            );
            &&& 0 <= one.center.re - two.center.re <= 1
            &&& 0 <= two.center.im - one.center.im <= 1
            &&& ((d1.x * density * PIXEL_TO_FRACTAL) % (view.zoom as int) == 0
                ==> one.center.re == two.center.re)
            &&& ((d1.y * density * PIXEL_TO_FRACTAL) % (view.zoom as int) == 0
                ==> one.center.im == two.center.im)
            &&& two == view.with_center(two.center)
            &&& one == view.with_center(one.center)
        }),
{
    let z = view.zoom as int;
    let sum = ScreenPoint { x: (d1.x + d2.x) as i64, y: (d1.y + d2.y) as i64 };
    lemma_dragged_moves(view, d1, density);
    let first = view.dragged(d1, density);
    lemma_dragged_moves(first, d2, density);
    lemma_dragged_moves(view, sum, density);
    lemma_floor_sum(d1.x * density * PIXEL_TO_FRACTAL, d2.x * density * PIXEL_TO_FRACTAL, z);
    lemma_floor_sum(d1.y * density * PIXEL_TO_FRACTAL, d2.y * density * PIXEL_TO_FRACTAL, z);
    assert((d1.x + d2.x) * density * PIXEL_TO_FRACTAL == d1.x * density * PIXEL_TO_FRACTAL + d2.x
        * density * PIXEL_TO_FRACTAL) by (nonlinear_arith);
    assert((d1.y + d2.y) * density * PIXEL_TO_FRACTAL == d1.y * density * PIXEL_TO_FRACTAL + d2.y
        * density * PIXEL_TO_FRACTAL) by (nonlinear_arith);
    assert(fractal_units(d1.x * density, z) == d1.x * density * PIXEL_TO_FRACTAL / z);
    assert(fractal_units(d2.x * density, z) == d2.x * density * PIXEL_TO_FRACTAL / z);
    assert(fractal_units(d1.y * density, z) == d1.y * density * PIXEL_TO_FRACTAL / z);
    assert(fractal_units(d2.y * density, z) == d2.y * density * PIXEL_TO_FRACTAL / z);
    assert(fractal_units((d1.x + d2.x) * density, z) == (d1.x + d2.x) * density * PIXEL_TO_FRACTAL / z);
    assert(fractal_units((d1.y + d2.y) * density, z) == (d1.y + d2.y) * density * PIXEL_TO_FRACTAL / z);
}

/// A drag moves `center` by the fractal units of its physical offset, also
/// when the drag is zero.
proof fn lemma_dragged_moves(view: State, delta: ScreenPoint, density: int)
    requires
        view.wf(),
    ensures
        view.dragged(delta, density) == view.moved(
            fractal_units(delta.x * density, view.zoom as int),
            fractal_units(delta.y * density, view.zoom as int),
        ),
{
    if delta.x == 0 && delta.y == 0 {
        assert(fractal_units(delta.x * density, view.zoom as int) == 0);
        assert(fractal_units(delta.y * density, view.zoom as int) == 0);
        assert(view.moved(0, 0).center == view.center);
    }
}

/// Rounding down two summands separately loses at most one unit against
/// rounding down their sum, and nothing when the first divides exactly.
proof fn lemma_floor_sum(a: int, b: int, z: int)
    requires
        z >= 1,
    ensures
        0 <= (a + b) / z - (a / z + b / z) <= 1,
        a % z == 0 ==> (a + b) / z == a / z + b / z,
{
    vstd::arithmetic::div_mod::lemma_fundamental_div_mod(a, z);
    vstd::arithmetic::div_mod::lemma_fundamental_div_mod(b, z);
    vstd::arithmetic::div_mod::lemma_fundamental_div_mod(a + b, z);
    let qa = a / z;
    let qb = b / z;
    let q = (a + b) / z;
    assert(0 <= q - (qa + qb) <= 1) by (nonlinear_arith)
        requires
            a == z * qa + a % z,
            b == z * qb + b % z,
            a + b == z * q + (a + b) % z,
            0 <= a % z < z,
            0 <= b % z < z,
            0 <= (a + b) % z < z,
    ;
    if a % z == 0 {
        assert(q == qa + qb) by (nonlinear_arith)
            requires
                a == z * qa,
                b == z * qb + b % z,
                a + b == z * q + (a + b) % z,
                0 <= b % z < z,
                0 <= (a + b) % z < z,
        ;
    }
}

/// From `z0 = 0`, a parameter `c` with `|c| > 2` escapes in the low-quality
/// tier at the first iteration, well within the budget.
pub proof fn lemma_escape_beyond_two(c: ComplexCoordinate)
    requires
        outside(c.pair(), LOW_RADIUS as int),
    ensures
        escape_index((0, 0), c.pair(), false) == 1,
        escape_index((0, 0), c.pair(), false) < max_iter(false),
{
    assert(orbit((0, 0), c.pair(), 0) == (0int, 0int));
    assert(orbit((0, 0), c.pair(), 1) == c.pair());
}

} // verus!
