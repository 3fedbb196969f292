//! The interaction controller: a drag state machine over the viewport.
//!
//! The controller owns the viewport, the drag state and the last known
//! pointer position, and consumes plain input events (pointer moves, left
//! button presses and releases, wheel scrolls, window resizes). Pointer
//! coordinates are carried as IEEE-754 double-precision bit patterns, the
//! wheel line delta as a single-precision bit pattern, window dimensions as
//! pixel counts. Every transition is stated exactly by the spec function
//! `step`.

use vstd::prelude::*;
use crate::arith::{
    f32_mul, f32_sub, f32_neg, f64_sub, f64_div, f64_mul, f64_of_u32, f32_of_f64, mul32, sub32,
    neg32, sub64, div64, mul64, f64_from_u32, f32_from_f64,
};
use crate::viewport::{Vec2, Viewport, default_viewport, zoomed, panned_x, panned_y};

verus! {

/// Bit pattern of the single-precision number 1.0.
pub const F32_ONE: u32 = 0x3f80_0000;

/// Bit pattern of the single-precision number 0.1 (the wheel sensitivity).
pub const F32_TENTH: u32 = 0x3dcc_cccd;

/// Bit pattern of the double-precision number 2.0.
pub const F64_TWO: u64 = 0x4000_0000_0000_0000;

/// A pointer position in screen pixel coordinates, each coordinate the bit
/// pattern of an IEEE-754 double-precision number.
#[derive(Clone, Copy, Debug, PartialEq, Eq)]
pub struct PointerPos {
    pub x: u64,
    pub y: u64,
}

/// Whether a left-button drag is in progress, and if so where the pointer
/// was at the most recent move.
#[derive(Clone, Copy, Debug, PartialEq, Eq)]
pub enum DragState {
    NotDragging,
    Dragging { prev_mouse: PointerPos },
}

/// A plain input event, as handed in by the windowing layer.
#[derive(Clone, Copy, Debug, PartialEq, Eq)]
pub enum InputEvent {
    /// The pointer moved to `(x, y)` in screen pixels (double-precision bit
    /// patterns).
    CursorMoved { x: u64, y: u64 },
    /// The left mouse button was pressed.
    LeftPressed,
    /// The left mouse button was released.
    LeftReleased,
    /// A vertical wheel scroll by `delta` lines (single-precision bit
    /// pattern).
    WheelLine { delta: u32 },
    /// The window was resized to `width` by `height` pixels.
    Resized { width: u32, height: u32 },
}

/// The interaction state: the viewport, the drag state machine, the last
/// known pointer position, and the current window size in pixels.
#[derive(Clone, Copy, Debug, PartialEq, Eq)]
pub struct Controller {
    pub viewport: Viewport,
    pub drag_state: DragState,
    pub mouse_position: PointerPos,
    pub width: u32,
    pub height: u32,
}

/// The zoom factor derived from a wheel line delta `d`: `1 - 0.1 * d`, so one
/// notch forward shrinks the visible window by a tenth and one notch backward
/// grows it by a tenth.
pub open spec fn zoom_factor(delta: u32) -> u32 {
    f32_sub(F32_ONE, f32_mul(F32_TENTH, delta))
}

/// The screen proportion of a pointer move along one axis: the pixel delta
/// `cur - prev`, divided by the window dimension `dim`, doubled (so a
/// full-window drag maps to a proportion of two, matching the half-extent
/// convention), then narrowed to single precision.
pub open spec fn drag_proportion(prev: u64, cur: u64, dim: u32) -> u32 {
    f32_of_f64(f64_mul(f64_div(f64_sub(cur, prev), f64_of_u32(dim)), F64_TWO))
}

/// The viewport after a drag of the pointer from `prev` to `(x, y)`: the x
/// proportion is negated (dragging right moves the view left), and an axis
/// whose window dimension is zero pixels is left untouched, since its
/// proportion would divide by zero.
pub open spec fn dragged_viewport(pre: Controller, prev: PointerPos, x: u64, y: u64) -> Viewport {
    let v1 = if pre.width > 0 {
        panned_x(pre.viewport, f32_neg(drag_proportion(prev.x, x, pre.width)))
    } else {
        pre.viewport
    };
    if pre.height > 0 {
        panned_y(v1, drag_proportion(prev.y, y, pre.height))
    } else {
        v1
    }
}

/// The controller at startup: default viewport, not dragging, pointer at the
/// origin, window size as reported by the windowing layer.
pub open spec fn initial_controller(width: u32, height: u32) -> Controller {
    Controller {
        viewport: default_viewport(),
        drag_state: DragState::NotDragging,
        mouse_position: PointerPos { x: 0, y: 0 },
        width,
        height,
    }
}

/// The transition function of the controller: the exact state after handling
/// `event` in state `pre`.
pub open spec fn step(pre: Controller, event: InputEvent) -> Controller {
    match event {
        InputEvent::CursorMoved { x, y } => match pre.drag_state {
            DragState::NotDragging => Controller {
                mouse_position: PointerPos { x, y },
                ..pre
            },
            DragState::Dragging { prev_mouse } => Controller {
                viewport: dragged_viewport(pre, prev_mouse, x, y),
                drag_state: DragState::Dragging { prev_mouse: PointerPos { x, y } },
                mouse_position: PointerPos { x, y },
                ..pre
            },
        },
        InputEvent::LeftPressed => Controller {
            drag_state: DragState::Dragging { prev_mouse: pre.mouse_position },
            ..pre
        },
        InputEvent::LeftReleased => Controller { drag_state: DragState::NotDragging, ..pre },
        InputEvent::WheelLine { delta } => Controller {
            viewport: zoomed(pre.viewport, zoom_factor(delta)),
            ..pre
        },
        InputEvent::Resized { width, height } => if width > 0 && height > 0 {
            Controller { width, height, ..pre }
        } else {
            pre
        },
    }
}

/// Whether `event` is one that pans or zooms the viewport in state `pre` (a
/// pointer move while dragging, or a wheel scroll), so that its GPU record is
/// re-uploaded before the next frame. Re-uploading an unchanged record is
/// harmless, so a drag move still counts when a degenerate window size makes
/// the pan itself a no-op.
pub open spec fn step_dirty(pre: Controller, event: InputEvent) -> bool {
    match event {
        InputEvent::CursorMoved { .. } => pre.drag_state is Dragging,
        InputEvent::WheelLine { .. } => true,
        _ => false,
    }
}

impl Controller {
    pub fn new(width: u32, height: u32) -> (r: Controller)
        ensures
            r == initial_controller(width, height),
    {
        Controller {
            viewport: Viewport::new(),
            drag_state: DragState::NotDragging,
            mouse_position: PointerPos { x: 0, y: 0 },
            width,
            height,
        }
    }

    /// Handles one input event; the new state is exactly `step` of the old
    /// one. Returns whether the event panned or zoomed the viewport, so that
    /// its GPU record must be re-uploaded.
    pub fn handle_event(&mut self, event: InputEvent) -> (dirty: bool)
        ensures
            *final(self) == step(*old(self), event),
            dirty == step_dirty(*old(self), event),
    {
        match event {
            InputEvent::CursorMoved { x, y } => {
                let dragging = self.drag_state;
                self.mouse_position = PointerPos { x, y };
                match dragging {
                    DragState::NotDragging => false,
                    DragState::Dragging { prev_mouse } => {
                        if self.width > 0 {
                            let px = proportion_of(prev_mouse.x, x, self.width);
                            self.viewport.pan_x(neg32(px));
                        }
                        if self.height > 0 {
                            let py = proportion_of(prev_mouse.y, y, self.height);
                            self.viewport.pan_y(py);
                        }
                        self.drag_state = DragState::Dragging { prev_mouse: PointerPos { x, y } };
                        true
                    },
                }
            },
            InputEvent::LeftPressed => {
                self.drag_state = DragState::Dragging { prev_mouse: self.mouse_position };
                false
            },
            InputEvent::LeftReleased => {
                self.drag_state = DragState::NotDragging;
                false
            },
            InputEvent::WheelLine { delta } => {
                let factor = sub32(F32_ONE, mul32(F32_TENTH, delta));
                self.viewport.zoom(factor);
                true
            },
            InputEvent::Resized { width, height } => {
                if width > 0 && height > 0 {
                    self.width = width;
                    self.height = height;
                }
                false
            },
        }
    }
}

/// Computes `drag_proportion` of one axis of a pointer move.
fn proportion_of(prev: u64, cur: u64, dim: u32) -> (r: u32)
    ensures
        r == drag_proportion(prev, cur, dim),
{
    let distance = sub64(cur, prev);
    let p = div64(distance, f64_from_u32(dim));
    f32_from_f64(mul64(p, F64_TWO))
}

/// An event that is not marked dirty never changes the viewport: every pan
/// or zoom is signalled, so re-uploading the GPU record on dirty events
/// alone keeps it in sync with the viewport.
pub proof fn lemma_clean_events_leave_viewport(c: Controller, event: InputEvent)
    ensures
        !step_dirty(c, event) ==> step(c, event).viewport == c.viewport,
{
}

/// Pressing the left button and releasing it without a pointer move in
/// between leaves the viewport (and the rest of the state but the drag
/// state) unchanged.
pub proof fn lemma_press_release_leaves_viewport(c: Controller)
    ensures
        step(step(c, InputEvent::LeftPressed), InputEvent::LeftReleased).viewport == c.viewport,
        step(step(c, InputEvent::LeftPressed), InputEvent::LeftReleased) == (Controller {
            drag_state: DragState::NotDragging,
            ..c
        }),
{
}

/// A press, one pointer move, and a release change the viewport exactly as
/// the single move does while dragging from the last known pointer position:
/// the pan is applied once, not twice.
pub proof fn lemma_drag_applies_move_once(c: Controller, x: u64, y: u64)
    ensures
        step(
            step(step(c, InputEvent::LeftPressed), InputEvent::CursorMoved { x, y }),
            InputEvent::LeftReleased,
        ).viewport == dragged_viewport(c, c.mouse_position, x, y),
{
}

} // verus!
