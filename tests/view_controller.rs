use fractal_viewer::controller::PointerInput;
use fractal_viewer::geometry::{ComplexCoordinate, Position, ScreenPoint, Viewport};
use fractal_viewer::view::{fractal_to_screen, screen_to_fractal, FractalType, State};

fn pt(x: i64, y: i64) -> ScreenPoint {
    ScreenPoint { x, y }
}

fn viewport() -> Viewport {
    Viewport { origin: pt(100_000, 50_000), size: pt(800_000, 600_000), pixels_per_point: 1_500 }
}

#[test]
fn default_state_matches_documented_values() {
    let s = State::new();
    assert_eq!(s.center, ComplexCoordinate { re: 0, im: 0 });
    assert_eq!(s.zoom, 3_000_000);
    assert_eq!(s.julia_constant, ComplexCoordinate { re: -760_000_000, im: -80_000_000 });
    assert_eq!((s.contrast, s.brightness, s.gamma), (3_500, 0, 12_500));
    assert_eq!((s.r, s.g, s.b), (1_600, 4_000, 10_000));
    assert!(s.high_quality);
    assert_eq!(s.fractal_type, FractalType::Julia);
}

#[test]
fn screen_to_fractal_scales_by_density_and_zoom() {
    let mut s = State::new();
    s.center = ComplexCoordinate { re: 5, im: -7 };
    // 3 points at density 2 are 6 pixels; at 3000 pixels per unit that is 0.002.
    let f = screen_to_fractal(pt(13_000, 10_000 - 3_000), pt(10_000, 10_000), 2_000, &s);
    assert_eq!(f, ComplexCoordinate { re: 2_000_000 - 5, im: -2_000_000 + 7 });
}

#[test]
fn screen_to_fractal_rounds_down() {
    let s = State::new();
    // 1 milli-point at density 1 is 1/1000 pixel, that is 333.3 nano-units.
    let f = screen_to_fractal(pt(1, -1), pt(0, 0), 1_000, &s);
    assert_eq!(f, ComplexCoordinate { re: 333, im: -334 });
}

#[test]
fn fractal_to_screen_inverts_exactly_on_whole_units() {
    let s = State::new();
    let back = fractal_to_screen(ComplexCoordinate { re: 1_000_000, im: -2_000_000 }, pt(0, 0), 1_000, &s);
    assert_eq!(back, Some(pt(3_000, -6_000)));
}

#[test]
fn fractal_to_screen_reports_unrepresentable_points() {
    let mut s = State::new();
    s.zoom = 1_000_000_000_000_000;
    let back = fractal_to_screen(ComplexCoordinate { re: i64::MAX, im: 0 }, pt(0, 0), 1, &s);
    assert_eq!(back, None);
}

#[test]
fn round_trip_returns_the_point_within_rounding() {
    let mut s = State::new();
    s.center = ComplexCoordinate { re: 123_456_789, im: -987_654_321 };
    s.zoom = 4_321_987;
    let origin = pt(2_500, -1_200);
    for &(x, y) in &[(0, 0), (1, 1), (777_777, -3_333), (-99_999_999, 99_999_999), (12_345, 67_891)] {
        let p = pt(x, y);
        let f = screen_to_fractal(p, origin, 1_250, &s);
        let back = fractal_to_screen(f, origin, 1_250, &s).expect("representable");
        assert!(back.x <= p.x && p.x - back.x <= 1, "{:?} -> {:?}", p, back);
        assert!(back.y <= p.y && p.y - back.y <= 1, "{:?} -> {:?}", p, back);
    }
}

#[test]
fn position_from_screen_space_scales_both_axes() {
    let p = Position::from_screen_space(1_500, pt(2_000, -4_000));
    assert_eq!(p, Position { x: 3_000_000, y: -6_000_000 });
    let d = p.sub(Position { x: 1_000_000, y: 1_000_000 });
    assert_eq!(d, Position { x: 2_000_000, y: -7_000_000 });
    // 2 pixels at 3000 pixels per unit.
    let f = d.div(3_000_000);
    assert_eq!(f, ComplexCoordinate { re: 666_666, im: -2_333_334 });
}

#[test]
fn zoom_in_multiplies_by_six_fifths() {
    let mut s = State::new();
    s.zoom_in();
    assert_eq!(s.zoom, 3_600_000);
    s.zoom_in();
    assert_eq!(s.zoom, 4_320_000);
}

#[test]
fn zoom_out_divides_by_six_fifths() {
    let mut s = State::new();
    s.zoom_out();
    assert_eq!(s.zoom, 2_500_000);
    s.zoom = 7;
    s.zoom_out();
    assert_eq!(s.zoom, 5);
}

#[test]
fn zoom_in_then_out_restores_zoom() {
    let mut s = State::new();
    let before = s;
    s.zoom_in();
    s.zoom_out();
    assert_eq!(s, before);
}

#[test]
fn zoom_in_then_out_loses_at_most_one_unit() {
    let mut s = State::new();
    s.zoom = 7;
    s.zoom_in();
    assert_eq!(s.zoom, 8);
    s.zoom_out();
    assert_eq!(s.zoom, 6);
}

#[test]
fn zoom_stays_within_limits() {
    let mut s = State::new();
    s.zoom = 1;
    s.zoom_out();
    assert_eq!(s.zoom, 1);
    s.zoom = 1_000_000_000_000_000;
    s.zoom_in();
    assert_eq!(s.zoom, 1_000_000_000_000_000);
}

#[test]
fn click_at_viewport_center_changes_nothing() {
    let mut s = State::new();
    s.center = ComplexCoordinate { re: 31_415, im: -27_182 };
    let before = s;
    let vp = viewport();
    s.recenter(vp.center(), &vp);
    assert_eq!(s, before);
}

#[test]
fn click_moves_clicked_point_to_center() {
    let mut s = State::new();
    let vp = Viewport { origin: pt(0, 0), size: pt(6_000, 6_000), pixels_per_point: 1_000 };
    // The viewport center is 3 pixels = 0.001 units right of and below the clicked corner.
    s.recenter(pt(0, 0), &vp);
    assert_eq!(s.center, ComplexCoordinate { re: 1_000_000, im: -1_000_000 });
}

#[test]
fn drag_adds_on_x_and_subtracts_on_y() {
    let mut s = State::new();
    s.drag(pt(1_500, 3_000), 2_000);
    // 3 and 6 pixels at 3000 pixels per unit.
    assert_eq!(s.center, ComplexCoordinate { re: 1_000_000, im: -2_000_000 });
}

#[test]
fn zero_drag_is_a_no_op() {
    let mut s = State::new();
    s.center = ComplexCoordinate { re: 17, im: 19 };
    let before = s;
    s.drag(pt(0, 0), 1_000);
    assert_eq!(s, before);
}

#[test]
fn two_drags_match_one_combined_drag() {
    let d1 = pt(1_234, -5_678);
    let d2 = pt(-4_321, 8_765);
    let mut two = State::new();
    two.drag(d1, 1_250);
    two.drag(d2, 1_250);
    let mut one = State::new();
    one.drag(pt(d1.x + d2.x, d1.y + d2.y), 1_250);
    assert!(one.center.re - two.center.re >= 0 && one.center.re - two.center.re <= 1);
    assert!(two.center.im - one.center.im >= 0 && two.center.im - one.center.im <= 1);
}

#[test]
fn two_drags_of_whole_units_match_exactly() {
    let mut two = State::new();
    two.drag(pt(3_000, 6_000), 1_000);
    two.drag(pt(-9_000, 3_000), 1_000);
    let mut one = State::new();
    one.drag(pt(-6_000, 9_000), 1_000);
    assert_eq!(two, one);
    assert_eq!(one.center, ComplexCoordinate { re: -2_000_000, im: -3_000_000 });
}

#[test]
fn center_is_kept_representable() {
    let mut s = State::new();
    s.zoom = 1;
    for _ in 0..5 {
        s.drag(pt(200_000_000, -200_000_000), 10_000);
    }
    assert_eq!(s.center, ComplexCoordinate { re: 4_000_000_000_000_000_000, im: 4_000_000_000_000_000_000 });
}

#[test]
fn pointer_double_click_then_secondary_double_click_restores_zoom() {
    let vp = viewport();
    let mut s = State::new();
    let none = PointerInput {
        primary_double_click: false,
        primary_click: None,
        secondary_double_click: false,
        drag_delta: pt(0, 0),
    };
    s.handle_pointer(&PointerInput { primary_double_click: true, ..none }, &vp);
    assert_eq!(s.zoom, 3_600_000);
    s.handle_pointer(&PointerInput { secondary_double_click: true, ..none }, &vp);
    assert_eq!(s.zoom, 3_000_000);
    assert_eq!(s, State::new());
}

#[test]
fn pointer_double_click_wins_over_click_and_drag_uses_new_zoom() {
    let vp = Viewport { origin: pt(0, 0), size: pt(6_000, 6_000), pixels_per_point: 1_000 };
    let mut s = State::new();
    let input = PointerInput {
        primary_double_click: true,
        primary_click: Some(pt(0, 0)),
        secondary_double_click: false,
        drag_delta: pt(3_600, 0),
    };
    s.handle_pointer(&input, &vp);
    assert_eq!(s.zoom, 3_600_000);
    // 3.6 pixels at 3600 pixels per unit.
    assert_eq!(s.center, ComplexCoordinate { re: 1_000_000, im: 0 });
}

#[test]
fn pointer_click_recenters() {
    let vp = Viewport { origin: pt(0, 0), size: pt(6_000, 6_000), pixels_per_point: 1_000 };
    let mut s = State::new();
    let input = PointerInput {
        primary_double_click: false,
        primary_click: Some(pt(6_000, 6_000)),
        secondary_double_click: true,
        drag_delta: pt(0, 0),
    };
    s.handle_pointer(&input, &vp);
    assert_eq!(s.zoom, 3_000_000);
    assert_eq!(s.center, ComplexCoordinate { re: -1_000_000, im: 1_000_000 });
}
