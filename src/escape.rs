//! The escape-time iteration `z <- z^2 + c` on fixed-point coordinates.
use vstd::prelude::*;
use crate::fixed::{floor_div, FRACTAL_ONE};
use crate::geometry::{fractal_units, lemma_div_shrinks, ComplexCoordinate, Position};
use crate::view::{FractalType, State};

verus! {

/// Millionths of a pixel in one physical pixel.
pub const PIXEL_ONE: i64 = 1_000_000;

/// Largest magnitude of a physical pixel coordinate.
pub const PIXEL_LIMIT: i64 = 2_000_000;

/// Iteration budget of the low-quality tier.
pub const LOW_MAX_ITER: u32 = 1024;

/// Escape radius of the low-quality tier, in fractal units.
pub const LOW_RADIUS: i64 = 2;

/// Iteration budget of the high-quality tier.
pub const HIGH_MAX_ITER: u32 = 4096;

/// Escape radius of the high-quality tier, in fractal units.
pub const HIGH_RADIUS: i64 = 4;

pub open spec fn max_iter(high_quality: bool) -> nat {
    if high_quality {
        HIGH_MAX_ITER as nat
    } else {
        LOW_MAX_ITER as nat
    }
}

pub open spec fn escape_radius(high_quality: bool) -> int {
    if high_quality {
        HIGH_RADIUS as int
    } else {
        LOW_RADIUS as int
    }
}

/// One iteration `z^2 + c`, each product rounded down to the fixed-point
/// grid.
pub open spec fn step(z: (int, int), c: (int, int)) -> (int, int) {
    (
        (z.0 * z.0 - z.1 * z.1) / (FRACTAL_ONE as int) + c.0,
        (2 * z.0 * z.1) / (FRACTAL_ONE as int) + c.1,
    )
}

/// The point after `n` iterations from `z0`.
pub open spec fn orbit(z0: (int, int), c: (int, int), n: nat) -> (int, int)
    decreases n,
{
    if n == 0 {
        z0
    } else {
        step(orbit(z0, c, (n - 1) as nat), c)
    }
}

/// `|z| > radius`, compared on squares.
pub open spec fn outside(z: (int, int), radius: int) -> bool {
    z.0 * z.0 + z.1 * z.1 > radius * radius * FRACTAL_ONE * FRACTAL_ONE
}

/// The first iteration count `k` in `[from, max)` whose point is outside the
/// radius, or `max` when there is none.
pub open spec fn first_escape(z0: (int, int), c: (int, int), radius: int, from: nat, max: nat) -> nat
    decreases max - from,
{
    if from >= max {
        max
    } else if outside(orbit(z0, c, from), radius) {
        from
    } else {
        first_escape(z0, c, radius, from + 1, max)
    }
}

/// The escape index of `z0` under parameter `c` in a quality tier: the first
/// `k >= 1` at which the `k`-th iterate leaves the tier's radius, or the
/// tier's budget when no iterate before it does.
pub open spec fn escape_index(z0: (int, int), c: (int, int), high_quality: bool) -> nat {
    first_escape(z0, c, escape_radius(high_quality), 1, max_iter(high_quality))
}

/// Outcome of the escape-time iteration for one point.
#[derive(Clone, Copy, Debug, PartialEq, Eq, Structural)]
pub struct Escape {
    /// The escape index, between 1 and the tier's budget.
    pub iterations: u32,
    /// Whether an iterate left the radius within the budget.
    pub escaped: bool,
    /// The last iterate computed: the one that escaped, or the one after
    /// `budget - 1` iterations.
    pub last_re: i128,
    pub last_im: i128,
}

/// The whole outcome of the iteration, as a function of `z0`, `c` and the
/// tier alone.
pub open spec fn escape_outcome(z0: (int, int), c: (int, int), high_quality: bool) -> Escape {
    let k = escape_index(z0, c, high_quality);
    let escaped = k < max_iter(high_quality);
    let last = if escaped {
        orbit(z0, c, k)
    } else {
        orbit(z0, c, (max_iter(high_quality) - 1) as nat)
    };
    Escape { iterations: k as u32, escaped, last_re: last.0 as i128, last_im: last.1 as i128 }
}

impl ComplexCoordinate {
    pub open spec fn pair(self) -> (int, int) {
        (self.re as int, self.im as int)
    }
}

fn step_exec(re: i128, im: i128, c: ComplexCoordinate) -> (r: (i128, i128))
    requires
        i64::MIN <= re <= i64::MAX,
        i64::MIN <= im <= i64::MAX,
    ensures
        (r.0 as int, r.1 as int) == step((re as int, im as int), c.pair()),
        -0x4000_0000_0000_0000_0000_0000_0000_0000 <= r.0 <= 0x4000_0000_0000_0000_0000_0000_0000_0000,
        -0x4000_0000_0000_0000_0000_0000_0000_0000 <= r.1 <= 0x4000_0000_0000_0000_0000_0000_0000_0000,
{
    let bound: i128 = 0x4000_0000_0000_0000_0000_0000_0000_0000;
    assert(0 <= re * re <= bound && 0 <= im * im <= bound && -bound <= re * im <= bound)
        by (nonlinear_arith)
        requires
            -0x8000_0000_0000_0000 <= re <= 0x8000_0000_0000_0000,
            -0x8000_0000_0000_0000 <= im <= 0x8000_0000_0000_0000,
            bound == 0x4000_0000_0000_0000_0000_0000_0000_0000,
    ;
    let half: i128 = (FRACTAL_ONE / 2) as i128;
    let re_part = floor_div(re * re - im * im, FRACTAL_ONE as i128);
    let im_part = floor_div(re * im, half);
    proof {
        lemma_double_over_double(re * im, half as int);
        lemma_div_magnitude(re * re - im * im, FRACTAL_ONE as int);
        lemma_div_magnitude(re * im, half as int);
        assert(2 * re * im == 2 * (re * im)) by (nonlinear_arith);
        assert(2 * half == FRACTAL_ONE);
        lemma_div_shrinks((re * re - im * im) / (FRACTAL_ONE as int), 1);
    }
    (re_part + c.re as i128, im_part + c.im as i128)
}

proof fn lemma_double_over_double(x: int, h: int)
    requires
        h > 0,
    ensures
        (2 * x) / (2 * h) == x / h,
{
    vstd::arithmetic::div_mod::lemma_fundamental_div_mod(x, h);
    let q = x / h;
    let r = x % h;
    assert(2 * x == (2 * h) * q + 2 * r) by (nonlinear_arith)
        requires
            x == h * q + r,
    ;
    vstd::arithmetic::div_mod::lemma_fundamental_div_mod_converse(2 * x, 2 * h, q, 2 * r);
}

proof fn lemma_div_magnitude(x: int, d: int)
    requires
        d >= 2,
        -0x8000_0000_0000_0000_0000_0000_0000_0000 <= x <= 0x8000_0000_0000_0000_0000_0000_0000_0000,
    ensures
        -0x4000_0000_0000_0000_0000_0000_0000_0000 <= x / d <= 0x4000_0000_0000_0000_0000_0000_0000_0000,
{
    vstd::arithmetic::div_mod::lemma_fundamental_div_mod(x, d);
    let q = x / d;
    let r = x % d;
    assert(-0x4000_0000_0000_0000_0000_0000_0000_0000 <= q <= 0x4000_0000_0000_0000_0000_0000_0000_0000)
        by (nonlinear_arith)
        requires
            x == d * q + r,
            0 <= r < d,
            d >= 2,
            -0x8000_0000_0000_0000_0000_0000_0000_0000 <= x <= 0x8000_0000_0000_0000_0000_0000_0000_0000,
    ;
}

fn outside_exec(re: i128, im: i128, radius: i64) -> (r: bool)
    requires
        -0x4000_0000_0000_0000_0000_0000_0000_0000 <= re <= 0x4000_0000_0000_0000_0000_0000_0000_0000,
        -0x4000_0000_0000_0000_0000_0000_0000_0000 <= im <= 0x4000_0000_0000_0000_0000_0000_0000_0000,
        radius == LOW_RADIUS || radius == HIGH_RADIUS,
    ensures
        r == outside((re as int, im as int), radius as int),
{
    let limit: i128 = radius as i128 * FRACTAL_ONE as i128;
    if re > limit || re < -limit || im > limit || im < -limit {
        assert(outside((re as int, im as int), radius as int)) by (nonlinear_arith)
            requires
                re > limit || re < -limit || im > limit || im < -limit,
                limit == radius * FRACTAL_ONE,
                limit > 0,
        ;
        true
    } else {
        assert(0 <= re * re <= 0x1_0000_0000_0000_0000 && 0 <= im * im <= 0x1_0000_0000_0000_0000
            && 0 <= limit * limit <= 0x1_0000_0000_0000_0000) by (nonlinear_arith)
            requires
                -limit <= re <= limit,
                -limit <= im <= limit,
                0 < limit <= 4_000_000_000,
        ;
        re * re + im * im > limit * limit
    }
}

/// Runs the escape-time iteration from `z0` with parameter `c` in the tier
/// chosen by `high_quality`.
pub fn escape_time(z0: ComplexCoordinate, c: ComplexCoordinate, high_quality: bool) -> (r: Escape)
    ensures
        r == escape_outcome(z0.pair(), c.pair(), high_quality),
        r.iterations == escape_index(z0.pair(), c.pair(), high_quality),
        1 <= r.iterations <= max_iter(high_quality),
        r.escaped <==> r.iterations < max_iter(high_quality),
        r.escaped ==> (r.last_re as int, r.last_im as int) == orbit(
            z0.pair(),
            c.pair(),
            r.iterations as nat,
        ),
        !r.escaped ==> (r.last_re as int, r.last_im as int) == orbit(
            z0.pair(),
            c.pair(),
            (max_iter(high_quality) - 1) as nat,
        ),
{
    let max: u32 = if high_quality {
        HIGH_MAX_ITER
    } else {
        LOW_MAX_ITER
    };
    let radius: i64 = if high_quality {
        HIGH_RADIUS
    } else {
        LOW_RADIUS
    };
    let mut re: i128 = z0.re as i128;
    let mut im: i128 = z0.im as i128;
    let mut i: u32 = 1;
    while i < max
        invariant
            max == max_iter(high_quality),
            radius == escape_radius(high_quality),
            1 <= i <= max,
            (re as int, im as int) == orbit(z0.pair(), c.pair(), (i - 1) as nat),
            i64::MIN <= re <= i64::MAX,
            i64::MIN <= im <= i64::MAX,
            escape_index(z0.pair(), c.pair(), high_quality) == first_escape(
                z0.pair(),
                c.pair(),
                radius as int,
                i as nat,
                max as nat,
            ),
        decreases max - i,
    {
        let next = step_exec(re, im, c);
        if outside_exec(next.0, next.1, radius) {
            return Escape { iterations: i, escaped: true, last_re: next.0, last_im: next.1 };
        }
        assert(-(radius * FRACTAL_ONE) <= next.0 <= radius * FRACTAL_ONE
            && -(radius * FRACTAL_ONE) <= next.1 <= radius * FRACTAL_ONE) by (nonlinear_arith)
            requires
                !outside((next.0 as int, next.1 as int), radius as int),
                radius == LOW_RADIUS || radius == HIGH_RADIUS,
        ;
        re = next.0;
        im = next.1;
        i = i + 1;
    }
    Escape { iterations: max, escaped: false, last_re: re, last_im: im }
}

impl State {
    /// The iterated parameter for a point: the Julia constant, or the point
    /// itself for the Mandelbrot set.
    pub open spec fn parameter_for(self, z0: ComplexCoordinate) -> ComplexCoordinate {
        match self.fractal_type {
            FractalType::Julia => self.julia_constant,
            FractalType::Mandelbrot => z0,
        }
    }

    /// The fractal coordinate of the physical pixel `(px, py)`, counted from
    /// the viewport's top-left corner: `pixel / zoom - center`.
    pub open spec fn fractal_at(self, px: int, py: int) -> (int, int) {
        (
            fractal_units(px * PIXEL_ONE, self.zoom as int) - self.center.re,
            fractal_units(py * PIXEL_ONE, self.zoom as int) - self.center.im,
        )
    }

    /// Maps a physical pixel to fractal space.
    pub fn pixel_to_fractal(&self, px: i64, py: i64) -> (r: ComplexCoordinate)
        requires
            self.wf(),
            -PIXEL_LIMIT <= px <= PIXEL_LIMIT,
            -PIXEL_LIMIT <= py <= PIXEL_LIMIT,
        ensures
            r.pair() == self.fractal_at(px as int, py as int),
    {
        let units = (Position { x: px * PIXEL_ONE, y: py * PIXEL_ONE }).div(self.zoom);
        ComplexCoordinate { re: units.re - self.center.re, im: units.im - self.center.im }
    }

    /// The escape-time outcome of the physical pixel `(px, py)`.
    pub fn escape_at_pixel(&self, px: i64, py: i64) -> (r: Escape)
        requires
            self.wf(),
            -PIXEL_LIMIT <= px <= PIXEL_LIMIT,
            -PIXEL_LIMIT <= py <= PIXEL_LIMIT,
        ensures
            ({
                let z0 = self.fractal_at(px as int, py as int);
                let c = match self.fractal_type {
                    FractalType::Julia => self.julia_constant.pair(),
                    FractalType::Mandelbrot => z0,
                };
                &&& r == escape_outcome(z0, c, self.high_quality)
                &&& r.iterations == escape_index(z0, c, self.high_quality)
                &&& r.escaped <==> r.iterations < max_iter(self.high_quality)
            }),
    {
        let z0 = self.pixel_to_fractal(px, py);
        self.evaluate(z0)
    }

    /// Runs the escape-time iteration for `z0` under this view's fractal type
    /// and quality tier.
    pub fn evaluate(&self, z0: ComplexCoordinate) -> (r: Escape)
        ensures
            r == escape_outcome(z0.pair(), self.parameter_for(z0).pair(), self.high_quality),
            r.iterations == escape_index(
                z0.pair(),
                self.parameter_for(z0).pair(),
                self.high_quality,
            ),
            r.escaped <==> r.iterations < max_iter(self.high_quality),
    {
        let c = match self.fractal_type {
            FractalType::Julia => self.julia_constant,
            FractalType::Mandelbrot => z0,
        };
        escape_time(z0, c, self.high_quality)
    }
}

} // verus!
