//! The viewport model: the visible logical rectangle of the viewer.
//!
//! A viewport is a center point and a full width/height, all four scalars
//! stored as IEEE-754 single-precision bit patterns. Zooming scales the size
//! in place; panning translates the center by a proportion of the current
//! half-extent, which makes pan speed in logical units scale with the zoom
//! level.

use vstd::prelude::*;
use crate::arith::{f32_mul, f32_add, f32_div, mul32, add32, div32};

verus! {

/// Bit pattern of the single-precision number 2.0.
pub const F32_TWO: u32 = 0x4000_0000;

/// A pair of scalar components, each stored as the bit pattern of an
/// IEEE-754 single-precision number.
#[derive(Clone, Copy, Debug, PartialEq, Eq)]
pub struct Vec2 {
    pub x: u32,
    pub y: u32,
}

impl Vec2 {
    pub fn new(x: u32, y: u32) -> (r: Vec2)
        ensures
            r == (Vec2 { x, y }),
    {
        Vec2 { x, y }
    }

    /// The origin: both components are 0.0, whose bit pattern is zero.
    pub fn zero() -> (r: Vec2)
        ensures
            r == (Vec2 { x: 0u32, y: 0u32 }),
    {
        Vec2 { x: 0, y: 0 }
    }
}

/// The visible logical rectangle: `size` is the full width/height, not the
/// half-extent.
#[derive(Clone, Copy, Debug, PartialEq, Eq)]
pub struct Viewport {
    pub center: Vec2,
    pub size: Vec2,
}

/// The startup viewport: centered on the origin, two logical units wide and
/// tall (a logical plus-or-minus one unit square).
pub open spec fn default_viewport() -> Viewport {
    Viewport { center: Vec2 { x: 0, y: 0 }, size: Vec2 { x: F32_TWO, y: F32_TWO } }
}

/// The viewport after zooming by `factor`: both size components are scaled by
/// `factor`, the center does not move.
pub open spec fn zoomed(v: Viewport, factor: u32) -> Viewport {
    Viewport {
        center: v.center,
        size: Vec2 { x: f32_mul(v.size.x, factor), y: f32_mul(v.size.y, factor) },
    }
}

/// The viewport translated along the x axis by `px` times its half-width.
pub open spec fn panned_x(v: Viewport, px: u32) -> Viewport {
    Viewport {
        center: Vec2 {
            x: f32_add(v.center.x, f32_mul(f32_div(v.size.x, F32_TWO), px)),
            y: v.center.y,
        },
        size: v.size,
    }
}

/// The viewport translated along the y axis by `py` times its half-height.
pub open spec fn panned_y(v: Viewport, py: u32) -> Viewport {
    Viewport {
        center: Vec2 {
            x: v.center.x,
            y: f32_add(v.center.y, f32_mul(f32_div(v.size.y, F32_TWO), py)),
        },
        size: v.size,
    }
}

/// The viewport translated by `(px, py)` as a proportion of the current
/// half-extent. Each axis reads only its own size component, so the combined
/// move is the x move followed by the y move.
pub open spec fn panned(v: Viewport, px: u32, py: u32) -> Viewport {
    panned_y(panned_x(v, px), py)
}

impl Viewport {
    pub fn new() -> (r: Viewport)
        ensures
            r == default_viewport(),
    {
        Viewport { center: Vec2::zero(), size: Vec2::new(F32_TWO, F32_TWO) }
    }

    /// Scales both size components by `factor` in place; the center is
    /// unchanged. The factor is not validated: sensitivity policy belongs to
    /// the caller.
    pub fn zoom(&mut self, factor: u32)
        ensures
            *final(self) == zoomed(*old(self), factor),
    {
        self.size.x = mul32(self.size.x, factor);
        self.size.y = mul32(self.size.y, factor);
    }

    /// Translates the center along the x axis by `px` times the half-width.
    pub(crate) fn pan_x(&mut self, px: u32)
        ensures
            *final(self) == panned_x(*old(self), px),
    {
        let distance_x = mul32(div32(self.size.x, F32_TWO), px);
        self.center.x = add32(self.center.x, distance_x);
    }

    /// Translates the center along the y axis by `py` times the half-height.
    pub(crate) fn pan_y(&mut self, py: u32)
        ensures
            *final(self) == panned_y(*old(self), py),
    {
        let distance_y = mul32(div32(self.size.y, F32_TWO), py);
        self.center.y = add32(self.center.y, distance_y);
    }

    /// Interprets `(px, py)` as a fraction of the current half-extent and
    /// translates the center by `(size.x/2 * px, size.y/2 * py)`.
    pub fn move_by_screen_proportion(&mut self, px: u32, py: u32)
        ensures
            *final(self) == panned(*old(self), px, py),
    {
        self.pan_x(px);
        self.pan_y(py);
    }
}

} // verus!
