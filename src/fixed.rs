//! Units of the fixed-point model and exact integer helpers.
use vstd::prelude::*;

verus! {

/// Screen coordinates and lengths are counted in thousandths of a UI point.
pub const POINT_ONE: i64 = 1_000;

/// Pixel density is counted in thousandths of a physical pixel per UI point.
pub const DENSITY_ONE: i64 = 1_000;

/// Zoom is counted in thousandths of a physical pixel per fractal unit.
pub const ZOOM_ONE: i64 = 1_000;

/// Fractal-space coordinates are counted in billionths of a fractal unit.
pub const FRACTAL_ONE: i64 = 1_000_000_000;

/// Colour parameters (contrast, brightness, gamma, channel weights) are
/// counted in ten-thousandths.
pub const PARAM_ONE: i64 = 10_000;

/// A screen offset times a pixel density is in millionths of a pixel; times
/// this factor and divided by the zoom it is in fractal units of `FRACTAL_ONE`.
pub const PIXEL_TO_FRACTAL: i64 = 1_000_000;

/// Largest magnitude of a screen coordinate (one hundred thousand points).
pub const SCREEN_LIMIT: i64 = 100_000_000;

/// Largest pixel density (ten pixels per point); the smallest is one unit.
pub const DENSITY_MAX: i64 = 10_000;

/// Smallest zoom: one unit, so that the zoom never reaches zero.
pub const ZOOM_MIN: i64 = 1;

/// Largest zoom: far beyond the resolution of the fractal coordinates.
pub const ZOOM_MAX: i64 = 1_000_000_000_000_000;

/// Largest magnitude of a stored fractal coordinate (four billion units).
pub const FRACTAL_LIMIT: i64 = 4_000_000_000_000_000_000;

/// Largest magnitude of a stored colour parameter (one million units).
pub const PARAM_LIMIT: i64 = 10_000_000_000;

/// `v` limited to the interval `[lo, hi]`.
pub open spec fn clamp(v: int, lo: int, hi: int) -> int {
    if v < lo {
        lo
    } else if v > hi {
        hi
    } else {
        v
    }
}

pub open spec fn fits_i64(v: int) -> bool {
    i64::MIN <= v <= i64::MAX
}

/// Division rounded towards negative infinity (Verus's `/` on `int` for a
/// positive divisor), unlike Rust's `/` on signed integers.
pub fn floor_div(a: i128, b: i128) -> (q: i128)
    requires
        b > 0,
        a > i128::MIN,
    ensures
        q == a / b,
{
    if a >= 0 {
        a / b
    } else {
        let n: i128 = -a - 1;
        let m: i128 = n / b;
        proof {
            lemma_floor_of_negative(a as int, b as int, n as int, m as int);
        }
        -m - 1
    }
}

proof fn lemma_floor_of_negative(a: int, b: int, n: int, m: int)
    requires
        b > 0,
        a < 0,
        n == -a - 1,
        m == n / b,
    ensures
        a / b == -m - 1,
{
    vstd::arithmetic::div_mod::lemma_fundamental_div_mod(n, b);
    let r = n % b;
    assert(0 <= r < b);
    assert(a == b * (-m - 1) + (b - 1 - r)) by (nonlinear_arith)
        requires
            n == b * m + r,
            a == -n - 1,
    ;
    vstd::arithmetic::div_mod::lemma_fundamental_div_mod_converse(a, b, -m - 1, b - 1 - r);
}

/// `v` limited to `[lo, hi]`.
pub fn clamp_i128(v: i128, lo: i64, hi: i64) -> (r: i64)
    requires
        lo <= hi,
    ensures
        r == clamp(v as int, lo as int, hi as int),
{
    if v < lo as i128 {
        lo
    } else if v > hi as i128 {
        hi
    } else {
        v as i64
    }
}

} // verus!
