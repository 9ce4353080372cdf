//! The viewport controller: how pointer interactions change the view.
use vstd::prelude::*;
use crate::fixed::{clamp, clamp_i128, FRACTAL_LIMIT, ZOOM_MAX, ZOOM_MIN};
use crate::geometry::{density_ok, fractal_units, ComplexCoordinate, Position, ScreenPoint, Viewport};
use crate::view::{screen_to_fractal, State};

verus! {

/// A zoom step multiplies (or divides) the zoom by 1.2, that is 6 / 5.
pub const ZOOM_STEP_NUM: i64 = 6;

pub const ZOOM_STEP_DEN: i64 = 5;

/// What the pointer did over the fractal area during one frame.
#[derive(Clone, Copy, Debug, PartialEq, Eq, Structural)]
pub struct PointerInput {
    pub primary_double_click: bool,
    /// Where a single primary click landed, if there was one.
    pub primary_click: Option<ScreenPoint>,
    pub secondary_double_click: bool,
    /// Drag motion of this frame, zero when the pointer did not drag.
    pub drag_delta: ScreenPoint,
}

impl PointerInput {
    pub open spec fn valid(self) -> bool {
        &&& (self.primary_click matches Some(p) ==> p.valid())
        &&& self.drag_delta.offset_valid()
    }
}

impl State {
    pub open spec fn with_zoom(self, zoom: int) -> State {
        State { zoom: zoom as i64, ..self }
    }

    pub open spec fn with_center(self, center: ComplexCoordinate) -> State {
        State { center, ..self }
    }

    /// The view after a primary double-click.
    pub open spec fn zoomed_in(self) -> State {
        self.with_zoom(clamp(self.zoom * ZOOM_STEP_NUM / ZOOM_STEP_DEN as int, ZOOM_MIN as int, ZOOM_MAX as int))
    }

    /// The view after a secondary double-click.
    pub open spec fn zoomed_out(self) -> State {
        self.with_zoom(clamp(self.zoom * ZOOM_STEP_DEN / ZOOM_STEP_NUM as int, ZOOM_MIN as int, ZOOM_MAX as int))
    }

    /// `dx` added to the real part of `center` and `dy` subtracted from its
    /// imaginary part (screen `y` grows downwards), each kept representable.
    pub open spec fn moved(self, dx: int, dy: int) -> State {
        State {
            center: ComplexCoordinate {
                re: clamp(self.center.re + dx, -FRACTAL_LIMIT as int, FRACTAL_LIMIT as int) as i64,
                im: clamp(self.center.im - dy, -FRACTAL_LIMIT as int, FRACTAL_LIMIT as int) as i64,
            },
            ..self
        }
    }

    /// The view after a primary click at `click`: `center` moves by the
    /// fractal-space difference between the viewport's center and the
    /// clicked point.
    pub open spec fn recentered(self, click: ScreenPoint, viewport: Viewport) -> State {
        let target = self.fractal_of(
            viewport.center_spec(),
            viewport.origin,
            viewport.pixels_per_point as int,
        );
        let clicked = self.fractal_of(click, viewport.origin, viewport.pixels_per_point as int);
        self.moved(target.0 - clicked.0, target.1 - clicked.1)
    }

    /// The view after a drag by `delta`; a zero drag changes nothing.
    pub open spec fn dragged(self, delta: ScreenPoint, density: int) -> State {
        if delta.x == 0 && delta.y == 0 {
            self
        } else {
            self.moved(
                fractal_units(delta.x * density, self.zoom as int),
                fractal_units(delta.y * density, self.zoom as int),
            )
        }
    }

    /// The view after one frame of pointer input: at most one of the zoom
    /// and click actions (double-click first), then the drag.
    pub open spec fn after_pointer(self, input: PointerInput, viewport: Viewport) -> State {
        let clicked = if input.primary_double_click {
            self.zoomed_in()
        } else if input.primary_click is Some {
            self.recentered(input.primary_click->0, viewport)
        } else if input.secondary_double_click {
            self.zoomed_out()
        } else {
            self
        };
        clicked.dragged(input.drag_delta, viewport.pixels_per_point as int)
    }

    /// Zooms in by one step.
    pub fn zoom_in(&mut self)
        requires
            old(self).wf(),
        ensures
            *final(self) == old(self).zoomed_in(),
            final(self).wf(),
            old(self).zoom * 6 / 5 <= ZOOM_MAX ==> final(self).zoom == old(self).zoom * 6 / 5,
    {
        let z = self.zoom * ZOOM_STEP_NUM / ZOOM_STEP_DEN;
        self.zoom = if z > ZOOM_MAX {
            ZOOM_MAX
        } else {
            z
        };
    }

    /// Zooms out by one step.
    pub fn zoom_out(&mut self)
        requires
            old(self).wf(),
        ensures
            *final(self) == old(self).zoomed_out(),
            final(self).wf(),
            old(self).zoom * 5 / 6 >= ZOOM_MIN ==> final(self).zoom == old(self).zoom * 5 / 6,
    {
        let z = self.zoom * ZOOM_STEP_DEN / ZOOM_STEP_NUM;
        self.zoom = if z < ZOOM_MIN {
            ZOOM_MIN
        } else {
            z
        };
    }

    fn move_center(&mut self, dx: i128, dy: i128)
        requires
            old(self).wf(),
            -0x1_0000_0000_0000_0000 <= dx <= 0x1_0000_0000_0000_0000,
            -0x1_0000_0000_0000_0000 <= dy <= 0x1_0000_0000_0000_0000,
        ensures
            *final(self) == old(self).moved(dx as int, dy as int),
            final(self).wf(),
    {
        self.center.re = clamp_i128(self.center.re as i128 + dx, -FRACTAL_LIMIT, FRACTAL_LIMIT);
        self.center.im = clamp_i128(self.center.im as i128 - dy, -FRACTAL_LIMIT, FRACTAL_LIMIT);
    }

    /// Moves the view so that the clicked point becomes the viewport's center.
    pub fn recenter(&mut self, click: ScreenPoint, viewport: &Viewport)
        requires
            old(self).wf(),
            click.valid(),
            viewport.valid(),
        ensures
            *final(self) == old(self).recentered(click, *viewport),
            final(self).wf(),
    {
        let target = screen_to_fractal(
            viewport.center(),
            viewport.origin,
            viewport.pixels_per_point,
            &*self,
        );
        let clicked = screen_to_fractal(click, viewport.origin, viewport.pixels_per_point, &*self);
        self.move_center(
            target.re as i128 - clicked.re as i128,
            target.im as i128 - clicked.im as i128,
        );
    }

    /// Pans the view by a drag of `delta`, scaled by the pixel density.
    pub fn drag(&mut self, delta: ScreenPoint, pixels_per_point: i64)
        requires
            old(self).wf(),
            delta.offset_valid(),
            density_ok(pixels_per_point as int),
        ensures
            *final(self) == old(self).dragged(delta, pixels_per_point as int),
            final(self).wf(),
    {
        if delta.x != 0 || delta.y != 0 {
            let shift = Position::from_screen_space(pixels_per_point, delta).div(self.zoom);
            self.move_center(shift.re as i128, shift.im as i128);
        }
    }

    /// Applies one frame of pointer input over the fractal area.
    pub fn handle_pointer(&mut self, input: &PointerInput, viewport: &Viewport)
        requires
            old(self).wf(),
            input.valid(),
            viewport.valid(),
        ensures
            *final(self) == old(self).after_pointer(*input, *viewport),
            final(self).wf(),
    {
        if input.primary_double_click {
            self.zoom_in();
        } else if let Some(click) = input.primary_click {
            self.recenter(click, viewport);
        } else if input.secondary_double_click {
            self.zoom_out();
        }
        self.drag(input.drag_delta, viewport.pixels_per_point);
    }
}

} // verus!
