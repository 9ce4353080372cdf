use fractal_viewer::escape::{escape_time, Escape, HIGH_MAX_ITER, LOW_MAX_ITER};
use fractal_viewer::fixed::floor_div;
use fractal_viewer::geometry::{ComplexCoordinate, ScreenPoint};
use fractal_viewer::view::{screen_to_fractal, FractalType, State};

fn c(re: i64, im: i64) -> ComplexCoordinate {
    ComplexCoordinate { re, im }
}

#[test]
fn floor_div_rounds_towards_negative_infinity() {
    assert_eq!(floor_div(7, 2), 3);
    assert_eq!(floor_div(-7, 2), -4);
    assert_eq!(floor_div(-8, 2), -4);
    assert_eq!(floor_div(0, 5), 0);
}

#[test]
fn parameter_beyond_two_escapes_at_first_iteration() {
    for &(re, im) in &[(3_000_000_000, 0), (-2_000_000_000, -1), (1_500_000_000, 1_500_000_000), (0, -2_000_000_001)] {
        let r = escape_time(c(0, 0), c(re, im), false);
        assert!(r.escaped);
        assert_eq!(r.iterations, 1);
        assert!(r.iterations <= LOW_MAX_ITER);
        assert_eq!((r.last_re, r.last_im), (re as i128, im as i128));
        let smoothed = ((r.iterations + 1) as f64).ln();
        assert!(smoothed.is_finite() && smoothed >= 0.0);
    }
}

#[test]
fn parameter_on_radius_does_not_escape_at_first_iteration() {
    // |c| == 2 exactly is not outside; the next iterate 4 - 2 = 2 is on it again.
    let r = escape_time(c(0, 0), c(-2_000_000_000, 0), false);
    assert!(!r.escaped);
    assert_eq!(r.iterations, LOW_MAX_ITER);
}

#[test]
fn same_input_gives_identical_output() {
    let z0 = c(123_456_789, -98_765_432);
    let k = c(-760_000_000, -80_000_000);
    for &hq in &[false, true] {
        let a = escape_time(z0, k, hq);
        let b = escape_time(z0, k, hq);
        assert_eq!(a, b);
    }
}

#[test]
fn scenario_center_pixel_escapes_under_default_julia_constant() {
    let mut s = State::new();
    s.high_quality = false;
    let origin = ScreenPoint { x: 400_000, y: 300_000 };
    let z0 = screen_to_fractal(origin, origin, 1_000, &s);
    assert_eq!(z0, c(0, 0));
    let r = s.evaluate(z0);
    assert!(r.escaped);
    assert_eq!(r.iterations, 92);
    let smoothed = ((r.iterations + 1) as f64).ln();
    assert!(smoothed.is_finite() && smoothed >= 0.0);
}

#[test]
fn high_quality_tier_uses_larger_radius() {
    // 2.5 is outside radius 2 but inside radius 4: 2.5^2 + 2.5 = 8.75 leaves it next.
    let low = escape_time(c(0, 0), c(2_500_000_000, 0), false);
    let high = escape_time(c(0, 0), c(2_500_000_000, 0), true);
    assert_eq!(low, Escape { iterations: 1, escaped: true, last_re: 2_500_000_000, last_im: 0 });
    assert_eq!(high, Escape { iterations: 2, escaped: true, last_re: 8_750_000_000, last_im: 0 });
}

#[test]
fn point_in_the_set_uses_the_whole_budget() {
    let low = escape_time(c(0, 0), c(0, 0), false);
    let high = escape_time(c(0, 0), c(0, 0), true);
    assert_eq!(low, Escape { iterations: LOW_MAX_ITER, escaped: false, last_re: 0, last_im: 0 });
    assert_eq!(high, Escape { iterations: HIGH_MAX_ITER, escaped: false, last_re: 0, last_im: 0 });
}

#[test]
fn iteration_squares_in_fixed_point() {
    // z0 = i, c = 0: i^2 = -1, then 1, then 1 ... stays on the unit circle.
    let r = escape_time(c(0, 1_000_000_000), c(0, 0), false);
    assert!(!r.escaped);
    assert_eq!((r.last_re, r.last_im), (1_000_000_000, 0));
    // z0 = 1 + i, c = 0: (1+i)^2 = 2i, then -4, which is outside radius 2.
    let r = escape_time(c(1_000_000_000, 1_000_000_000), c(0, 0), false);
    assert_eq!(r, Escape { iterations: 2, escaped: true, last_re: -4_000_000_000, last_im: 0 });
}

#[test]
fn mandelbrot_iterates_the_point_itself() {
    let mut s = State::new();
    s.fractal_type = FractalType::Mandelbrot;
    s.high_quality = false;
    assert_eq!(s.evaluate(c(3_000_000_000, 0)).iterations, 1);
    assert!(!s.evaluate(c(-1_000_000_000, 0)).escaped);
    s.fractal_type = FractalType::Julia;
    assert_eq!(s.evaluate(c(3_000_000_000, 0)).iterations, 1);
    assert_eq!(s.evaluate(c(0, 0)).iterations, 92);
}

#[test]
fn pixel_maps_as_pixel_over_zoom_minus_center() {
    let mut s = State::new();
    s.center = c(1_000_000, -2_000_000);
    // 300 pixels at 3000 pixels per unit is 0.1.
    assert_eq!(s.pixel_to_fractal(300, -600), c(100_000_000 - 1_000_000, -200_000_000 + 2_000_000));
    s.high_quality = false;
    let r = s.escape_at_pixel(1, 1);
    assert_eq!(r, s.evaluate(s.pixel_to_fractal(1, 1)));
}
