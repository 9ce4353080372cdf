//! Colour of a pixel from its smoothed escape value.
use vstd::prelude::*;
use crate::fixed::PARAM_ONE;
use crate::view::State;

verus! {

/// Largest magnitude of a smoothed escape value (one hundred units).
pub const VALUE_LIMIT: i64 = 1_000_000;

/// An output colour in ten-thousandths per channel, not clamped to `[0, 1]`.
#[derive(Clone, Copy, Debug, PartialEq, Eq, Structural)]
pub struct Rgb {
    pub r: i64,
    pub g: i64,
    pub b: i64,
}

/// `brightness + contrast * value * weight`, all in units of `PARAM_ONE`,
/// rounded down.
pub open spec fn channel(brightness: int, contrast: int, value: int, weight: int) -> int {
    brightness + (contrast * value * weight) / (PARAM_ONE * PARAM_ONE)
}

fn channel_exec(brightness: i64, contrast: i64, value: i64, weight: i64) -> (r: i64)
    requires
        crate::view::param_ok(brightness as int),
        crate::view::param_ok(contrast as int),
        crate::view::param_ok(weight as int),
        -VALUE_LIMIT <= value <= VALUE_LIMIT,
    ensures
        r == channel(brightness as int, contrast as int, value as int, weight as int),
{
    let bound: i128 = 100_000_000_000_000_000_000_000_000;
    assert(-bound <= contrast * value * weight <= bound && -10_000_000_000_000_000 <= contrast * value
        <= 10_000_000_000_000_000) by (nonlinear_arith)
        requires
            -10_000_000_000 <= contrast <= 10_000_000_000,
            -10_000_000_000 <= weight <= 10_000_000_000,
            -1_000_000 <= value <= 1_000_000,
            bound == 100_000_000_000_000_000_000_000_000,
    ;
    let scaled = crate::fixed::floor_div(
        contrast as i128 * value as i128 * weight as i128,
        (PARAM_ONE * PARAM_ONE) as i128,
    );
    proof {
        crate::geometry::lemma_div_shrinks(contrast * value * weight, (PARAM_ONE * PARAM_ONE) as int);
    }
    assert(-1_000_000_000_000_000_000 <= scaled <= 1_000_000_000_000_000_000) by (nonlinear_arith)
        requires
            scaled == (contrast * value * weight) / (PARAM_ONE * PARAM_ONE) as int,
            -bound <= contrast * value * weight <= bound,
            bound == 100_000_000_000_000_000_000_000_000,
    {
        vstd::arithmetic::div_mod::lemma_fundamental_div_mod(contrast * value * weight, (PARAM_ONE * PARAM_ONE) as int);
    }
    brightness + scaled as i64
}

impl State {
    /// The colour of a pixel whose smoothed escape value is `value`: each
    /// channel is `brightness + contrast * value * weight`.
    pub fn shade(&self, value: i64) -> (c: Rgb)
        requires
            self.wf(),
            -VALUE_LIMIT <= value <= VALUE_LIMIT,
        ensures
            c.r == channel(self.brightness as int, self.contrast as int, value as int, self.r as int),
            c.g == channel(self.brightness as int, self.contrast as int, value as int, self.g as int),
            c.b == channel(self.brightness as int, self.contrast as int, value as int, self.b as int),
    {
        Rgb {
            r: channel_exec(self.brightness, self.contrast, value, self.r),
            g: channel_exec(self.brightness, self.contrast, value, self.g),
            b: channel_exec(self.brightness, self.contrast, value, self.b),
        }
    }
}

} // verus!
