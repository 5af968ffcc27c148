//! The application shell's decisions: one window or input event in, a
//! state change and an action out.
//!
//! The event loop itself (window creation, the OS queue, the GPU calls)
//! lives with the caller; this function is the complete dispatch rule the
//! loop applies to each event. Closing exits, a redraw request renders,
//! the left mouse button toggles dragging, cursor movement orbits the
//! camera while dragging, the wheel zooms, and a resize reconfigures the
//! surface.

use vstd::prelude::*;
use crate::camera::{
    dragged_pitch, dragged_yaw, milli_lines_of, normalize_scroll, sat_i64, scrolled_distance,
    Camera, ScrollDelta,
};
use crate::render::RenderState;

verus! {

/// A window or input event, as the event loop hands it over. Cursor
/// positions are in milli-pixels; sizes in pixels.
#[derive(Clone, Copy, Debug, PartialEq, Eq, Structural)]
pub enum AppEvent {
    /// The user asked to close the window.
    CloseRequested,
    /// The window should be redrawn.
    RedrawRequested,
    /// A mouse button was pressed or released; only the left one matters.
    MouseInput { left: bool, pressed: bool },
    /// The cursor moved to (`x`, `y`), in milli-pixels.
    CursorMoved { x: i64, y: i64 },
    /// The mouse wheel turned.
    MouseWheel { delta: ScrollDelta },
    /// The window was resized to `width` x `height` pixels.
    Resized { width: u32, height: u32 },
}

/// What the event loop should do after an event was handled.
#[derive(Clone, Copy, Debug, PartialEq, Eq, Structural)]
pub enum ShellAction {
    /// Leave the event loop.
    Exit,
    /// Render one frame.
    RenderFrame,
    /// Ask the window for a redraw.
    RequestRedraw,
    /// Nothing further; the state change is all.
    Handled,
}

/// The camera after a cursor move: while dragging, the deltas from the last
/// cursor position (saturated into `i64`) orbit the camera; otherwise it is
/// untouched.
pub open spec fn cursor_camera(s: RenderState, x: i64, y: i64) -> Camera {
    if s.dragging {
        Camera {
            yaw: dragged_yaw(s.camera.yaw as int, sat_i64(s.last_mouse_x - x)) as i64,
            pitch: dragged_pitch(s.camera.pitch as int, sat_i64(s.last_mouse_y - y)) as i64,
            distance: s.camera.distance,
            target: s.camera.target,
            up: s.camera.up,
        }
    } else {
        s.camera
    }
}

/// The dispatch rule: the state after the event, and the action the event
/// loop performs next. A resize to a degenerate (zero) size is ignored.
pub open spec fn step_spec(s: RenderState, e: AppEvent) -> (RenderState, ShellAction) {
    match e {
        AppEvent::CloseRequested => (s, ShellAction::Exit),
        AppEvent::RedrawRequested => (s, ShellAction::RenderFrame),
        AppEvent::MouseInput { left, pressed } => (
            RenderState { dragging: if left { pressed } else { s.dragging }, ..s },
            ShellAction::Handled,
        ),
        AppEvent::CursorMoved { x, y } => (
            RenderState { camera: cursor_camera(s, x, y), last_mouse_x: x, last_mouse_y: y, ..s },
            ShellAction::Handled,
        ),
        AppEvent::MouseWheel { delta } => (
            RenderState {
                camera: Camera {
                    distance: scrolled_distance(
                        s.camera.distance as int,
                        milli_lines_of(delta),
                    ) as u64,
                    ..s.camera
                },
                ..s
            },
            ShellAction::RequestRedraw,
        ),
        AppEvent::Resized { width, height } => (
            if width > 0 && height > 0 {
                RenderState {
                    surface_width: width,
                    surface_height: height,
                    depth_width: width,
                    depth_height: height,
                    ..s
                }
            } else {
                s
            },
            ShellAction::Handled,
        ),
    }
}

/// Apply one event to the render state.
pub fn handle_window_event(state: &mut RenderState, event: AppEvent) -> (a: ShellAction)
    ensures
        ({
            let (next, act) = step_spec(*old(state), event);
            *final(state) == next && a == act
        }),
        old(state).well_formed() ==> final(state).well_formed(),
{
    match event {
        AppEvent::CloseRequested => ShellAction::Exit,
        AppEvent::RedrawRequested => ShellAction::RenderFrame,
        AppEvent::MouseInput { left, pressed } => {
            if left {
                state.dragging = pressed;
            }
            ShellAction::Handled
        },
        AppEvent::CursorMoved { x, y } => {
            let dx128: i128 = state.last_mouse_x as i128 - x as i128;
            let dy128: i128 = state.last_mouse_y as i128 - y as i128;
            let dx: i64 = if dx128 < i64::MIN as i128 {
                i64::MIN
            } else if dx128 > i64::MAX as i128 {
                i64::MAX
            } else {
                dx128 as i64
            };
            let dy: i64 = if dy128 < i64::MIN as i128 {
                i64::MIN
            } else if dy128 > i64::MAX as i128 {
                i64::MAX
            } else {
                dy128 as i64
            };
            if state.dragging {
                state.camera.apply_drag(dx, dy);
            }
            state.last_mouse_x = x;
            state.last_mouse_y = y;
            ShellAction::Handled
        },
        AppEvent::MouseWheel { delta } => {
            let raw = normalize_scroll(&delta);
            state.camera.apply_scroll(raw);
            ShellAction::RequestRedraw
        },
        AppEvent::Resized { width, height } => {
            if width > 0 && height > 0 {
                state.resize(width, height);
            }
            ShellAction::Handled
        },
    }
}

} // verus!
