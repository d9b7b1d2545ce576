//! Flat avatar geometry primitives: framebuffer points and eyes.
use vstd::prelude::*;
use crate::face::{double_sat, spec_scaled_height};

verus! {

/// A 2D integer point in framebuffer space.
#[derive(Debug, Clone, Copy, PartialEq, Eq, Structural, Default)]
pub struct Point {
    /// Horizontal coordinate in pixels.
    pub x: i32,
    /// Vertical coordinate in pixels.
    pub y: i32,
}

impl Point {
    /// Construct a `Point` from `(x, y)` pixel coordinates.
    pub fn new(x: i32, y: i32) -> (r: Self)
        ensures
            r.x == x,
            r.y == y,
    {
        Self { x, y }
    }
}

/// Whether an eye is currently open or closed.
#[derive(Debug, Clone, Copy, PartialEq, Eq, Structural, Default)]
#[non_exhaustive]
pub enum EyePhase {
    /// The eye is open.
    #[default]
    Open,
    /// The eye is closed (blink).
    Closed,
}

/// A single eye.
#[derive(Debug, Clone, Copy, PartialEq, Eq, Structural)]
pub struct Eye {
    /// Center of the eye in framebuffer space.
    pub center: Point,
    /// Horizontal half-axis of the eye oval in pixels.
    pub radius_x: u16,
    /// Vertical half-axis of the eye oval in pixels.
    pub radius_y: u16,
    /// Current open / closed phase.
    pub phase: EyePhase,
    /// Per-frame vertical scale factor, 0..=100.
    pub weight: u8,
    /// Upper bound on `weight` when the eye is open, 0..=100.
    pub open_weight: u8,
}

impl Eye {
    /// Width of the eye in pixels: twice the horizontal half-axis, saturating.
    pub fn width(&self) -> (r: u16)
        ensures
            r == double_sat(self.radius_x),
    {
        if self.radius_x <= 32767 { self.radius_x * 2 } else { u16::MAX }
    }

    /// Height of the eye in pixels at the current weight, never more than
    /// the full vertical span.
    pub fn height(&self) -> (r: u16)
        ensures
            r == spec_scaled_height(self.radius_y, self.weight),
            r <= double_sat(self.radius_y),
    {
        let full: u16 = if self.radius_y <= 32767 { self.radius_y * 2 } else { u16::MAX };
        assert((full as u32) * (self.weight as u32) <= 65535 * 255) by (nonlinear_arith)
            requires full <= 65535, self.weight <= 255;
        let scaled = (full as u32) * (self.weight as u32) / 100;
        if scaled < full as u32 { scaled as u16 } else { full }
    }
}

} // verus!
