//! Parameter controls: a square drag panel bound to two fields, and sliders
//! bound to one.
use vstd::prelude::*;
use crate::fixed::{clamp, clamp_i128, FRACTAL_LIMIT, PARAM_LIMIT, ZOOM_MAX, ZOOM_MIN};
use crate::geometry::{ComplexCoordinate, ScreenPoint};
use crate::view::{fractal_ok, State};

verus! {

/// A declared value range `[start, end]`.
#[derive(Clone, Copy, Debug, PartialEq, Eq, Structural)]
pub struct ValueRange {
    pub start: i64,
    pub end: i64,
}

impl ValueRange {
    pub open spec fn valid(self) -> bool {
        fractal_ok(self.start as int) && fractal_ok(self.end as int)
    }
}

/// A square panel that a drag moves across two value ranges: crossing the
/// panel's width moves a field by the width of its range.
#[derive(Clone, Copy, Debug, PartialEq, Eq, Structural)]
pub struct DragPanel {
    pub x_span: i64,
    pub y_span: i64,
}

/// The pair of fields that a drag panel is bound to.
#[derive(Clone, Copy, Debug, PartialEq, Eq, Structural)]
pub enum PanelTarget {
    /// Real and imaginary part of the Julia constant.
    JuliaConstant,
    /// Contrast (horizontal) and brightness (vertical).
    ContrastBrightness,
}

/// A scalar field of the view that a slider sets.
#[derive(Clone, Copy, Debug, PartialEq, Eq, Structural)]
pub enum Field {
    Zoom,
    JuliaRe,
    JuliaIm,
    Contrast,
    Brightness,
    Gamma,
    Red,
    Green,
    Blue,
}

/// A slider's declared range and whether values outside it are accepted.
#[derive(Clone, Copy, Debug, PartialEq, Eq, Structural)]
pub struct Slider {
    pub range: ValueRange,
    pub clamp_to_declared_range: bool,
}

impl DragPanel {
    /// A panel over `x_range` and `y_range`.
    pub fn new(x_range: ValueRange, y_range: ValueRange) -> (p: DragPanel)
        requires
            x_range.valid(),
            y_range.valid(),
        ensures
            p.x_span == x_range.end - x_range.start,
            p.y_span == y_range.end - y_range.start,
    {
        DragPanel { x_span: x_range.end - x_range.start, y_span: y_range.end - y_range.start }
    }

    /// The change of the two fields for a drag of `drag` over a panel
    /// `width` wide: `drag / width * span`, rounded down.
    pub open spec fn value_delta(self, drag: ScreenPoint, width: int) -> (int, int) {
        (drag.x * self.x_span / width, drag.y * self.y_span / width)
    }
}

/// The interval a field is kept in so that it stays representable.
pub open spec fn field_limits(field: Field) -> (int, int) {
    match field {
        Field::Zoom => (ZOOM_MIN as int, ZOOM_MAX as int),
        Field::JuliaRe | Field::JuliaIm => (-FRACTAL_LIMIT as int, FRACTAL_LIMIT as int),
        _ => (-PARAM_LIMIT as int, PARAM_LIMIT as int),
    }
}

fn field_limits_exec(field: Field) -> (r: (i64, i64))
    ensures
        r.0 == field_limits(field).0,
        r.1 == field_limits(field).1,
{
    match field {
        Field::Zoom => (ZOOM_MIN, ZOOM_MAX),
        Field::JuliaRe | Field::JuliaIm => (-FRACTAL_LIMIT, FRACTAL_LIMIT),
        _ => (-PARAM_LIMIT, PARAM_LIMIT),
    }
}

/// What a slider makes of an entered value: limited to the declared range
/// only when the slider clamps.
pub open spec fn slider_value(slider: Slider, value: int) -> int {
    if slider.clamp_to_declared_range {
        clamp(value, slider.range.start as int, slider.range.end as int)
    } else {
        value
    }
}

impl State {
    /// The value of a field.
    pub open spec fn field_value(self, field: Field) -> int {
        match field {
            Field::Zoom => self.zoom as int,
            Field::JuliaRe => self.julia_constant.re as int,
            Field::JuliaIm => self.julia_constant.im as int,
            Field::Contrast => self.contrast as int,
            Field::Brightness => self.brightness as int,
            Field::Gamma => self.gamma as int,
            Field::Red => self.r as int,
            Field::Green => self.g as int,
            Field::Blue => self.b as int,
        }
    }

    /// This view with one field set to `v`.
    pub open spec fn with_field(self, field: Field, v: int) -> State {
        match field {
            Field::Zoom => State { zoom: v as i64, ..self },
            Field::JuliaRe => State {
                julia_constant: ComplexCoordinate { re: v as i64, ..self.julia_constant },
                ..self
            },
            Field::JuliaIm => State {
                julia_constant: ComplexCoordinate { im: v as i64, ..self.julia_constant },
                ..self
            },
            Field::Contrast => State { contrast: v as i64, ..self },
            Field::Brightness => State { brightness: v as i64, ..self },
            Field::Gamma => State { gamma: v as i64, ..self },
            Field::Red => State { r: v as i64, ..self },
            Field::Green => State { g: v as i64, ..self },
            Field::Blue => State { b: v as i64, ..self },
        }
    }

    /// This view with `field` moved by `delta`, kept within `field_limits`.
    pub open spec fn with_field_moved(self, field: Field, delta: int) -> State {
        self.with_field(
            field,
            clamp(self.field_value(field) + delta, field_limits(field).0, field_limits(field).1),
        )
    }

    /// The view after a drag of `drag` over `panel`, `width` wide, bound to
    /// `target`: both fields move by `value_delta`, not clamped to the
    /// panel's ranges.
    pub open spec fn panel_dragged(
        self,
        panel: DragPanel,
        target: PanelTarget,
        drag: ScreenPoint,
        width: int,
    ) -> State {
        let delta = panel.value_delta(drag, width);
        match target {
            PanelTarget::JuliaConstant => self.with_field_moved(Field::JuliaRe, delta.0).with_field_moved(
                Field::JuliaIm,
                delta.1,
            ),
            PanelTarget::ContrastBrightness => self.with_field_moved(
                Field::Contrast,
                delta.0,
            ).with_field_moved(Field::Brightness, delta.1),
        }
    }

    /// The view after `slider`, bound to `field`, was set to `value`.
    pub open spec fn slider_set(self, field: Field, value: int, slider: Slider) -> State {
        self.with_field(
            field,
            clamp(slider_value(slider, value), field_limits(field).0, field_limits(field).1),
        )
    }

    fn field_get(&self, field: Field) -> (v: i64)
        ensures
            v == self.field_value(field),
    {
        match field {
            Field::Zoom => self.zoom,
            Field::JuliaRe => self.julia_constant.re,
            Field::JuliaIm => self.julia_constant.im,
            Field::Contrast => self.contrast,
            Field::Brightness => self.brightness,
            Field::Gamma => self.gamma,
            Field::Red => self.r,
            Field::Green => self.g,
            Field::Blue => self.b,
        }
    }

    fn field_put(&mut self, field: Field, v: i64)
        ensures
            *final(self) == old(self).with_field(field, v as int),
    {
        match field {
            Field::Zoom => self.zoom = v,
            Field::JuliaRe => self.julia_constant.re = v,
            Field::JuliaIm => self.julia_constant.im = v,
            Field::Contrast => self.contrast = v,
            Field::Brightness => self.brightness = v,
            Field::Gamma => self.gamma = v,
            Field::Red => self.r = v,
            Field::Green => self.g = v,
            Field::Blue => self.b = v,
        }
    }

    fn move_field(&mut self, field: Field, delta: i128)
        requires
            old(self).wf(),
            -0x1_0000_0000_0000_0000_0000_0000_0000 <= delta <= 0x1_0000_0000_0000_0000_0000_0000_0000,
        ensures
            *final(self) == old(self).with_field_moved(field, delta as int),
            final(self).wf(),
    {
        let limits = field_limits_exec(field);
        let v = clamp_i128(self.field_get(field) as i128 + delta, limits.0, limits.1);
        self.field_put(field, v);
    }

    /// Applies a drag of `drag` over `panel`, `width` wide, to the two fields
    /// of `target`.
    pub fn drag_panel(&mut self, panel: &DragPanel, target: PanelTarget, drag: ScreenPoint, width: i64)
        requires
            old(self).wf(),
            drag.offset_valid(),
            width >= 1,
            -2 * FRACTAL_LIMIT <= panel.x_span <= 2 * FRACTAL_LIMIT,
            -2 * FRACTAL_LIMIT <= panel.y_span <= 2 * FRACTAL_LIMIT,
        ensures
            *final(self) == old(self).panel_dragged(*panel, target, drag, width as int),
            final(self).wf(),
    {
        let dx = panel_delta(drag.x, panel.x_span, width);
        let dy = panel_delta(drag.y, panel.y_span, width);
        match target {
            PanelTarget::JuliaConstant => {
                self.move_field(Field::JuliaRe, dx);
                self.move_field(Field::JuliaIm, dy);
            },
            PanelTarget::ContrastBrightness => {
                self.move_field(Field::Contrast, dx);
                self.move_field(Field::Brightness, dy);
            },
        }
    }

    /// Sets `field` from `slider` to `value`: clamped to the declared range
    /// only when the slider clamps, and always kept within `field_limits`.
    pub fn set_field(&mut self, field: Field, value: i64, slider: &Slider)
        requires
            old(self).wf(),
        ensures
            *final(self) == old(self).slider_set(field, value as int, *slider),
            final(self).wf(),
    {
        let chosen = if slider.clamp_to_declared_range {
            if value < slider.range.start {
                slider.range.start
            } else if value > slider.range.end {
                slider.range.end
            } else {
                value
            }
        } else {
            value
        };
        let limits = field_limits_exec(field);
        let v = clamp_i128(chosen as i128, limits.0, limits.1);
        self.field_put(field, v);
    }
}

fn panel_delta(drag: i64, span: i64, width: i64) -> (r: i128)
    requires
        -2 * crate::fixed::SCREEN_LIMIT <= drag <= 2 * crate::fixed::SCREEN_LIMIT,
        -2 * FRACTAL_LIMIT <= span <= 2 * FRACTAL_LIMIT,
        width >= 1,
    ensures
        r == drag * span / (width as int),
        -0x1_0000_0000_0000_0000_0000_0000_0000 <= r <= 0x1_0000_0000_0000_0000_0000_0000_0000,
{
    assert(-0x1_0000_0000_0000_0000_0000_0000_0000 <= drag * span <= 0x1_0000_0000_0000_0000_0000_0000_0000)
        by (nonlinear_arith)
        requires
            -200_000_000 <= drag <= 200_000_000,
            -8_000_000_000_000_000_000 <= span <= 8_000_000_000_000_000_000,
    ;
    let r = crate::fixed::floor_div(drag as i128 * span as i128, width as i128);
    proof {
        crate::geometry::lemma_div_shrinks(drag * span, width as int);
    }
    r
}

} // verus!
