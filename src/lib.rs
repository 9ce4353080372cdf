//! Fixed-point model of an interactive Julia / Mandelbrot viewer: the mapping
//! between screen space and fractal space, the controller that turns pointer
//! and panel interactions into view changes, and the escape-time iteration.
pub mod fixed;
pub mod geometry;
pub mod view;
pub mod controller;
pub mod laws;
pub mod escape;
pub mod shade;
pub mod panel;
