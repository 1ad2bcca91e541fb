//! One window on the virtual surface: its OS proxy, its capture unit, its
//! pose on the dome, and its place in the z-order.
//!
//! Each frame the manager probes the real window (does the handle still
//! name a window, what rectangle does it report) and feeds the answers to
//! `draw_update`, which decides whether the window renders as it is, needs
//! its capture rebuilt at a new size, or has become invalid and must leave
//! the tracked set.

use vstd::prelude::*;
use crate::capture::WindowCapture;
use crate::capture::WINDOW_SCALE_FX;
use crate::internal_window::FakeMonitor;
use crate::internal_window::IWindow;
use crate::internal_window::Rect;
use crate::internal_window::PARK_PADDING;
use crate::internal_window::RectError;
use crate::mapping::COORD_FX_MAX;
use crate::mapping::PIXEL_MAX;
use crate::values::QuatFx;
use crate::values::UVec2;
use crate::values::Vec2Fx;
use crate::values::Vec3Fx;

verus! {

/// The verdict a window's per-frame update ends in.
#[derive(Clone, Copy, Debug, PartialEq, Eq, Hash, Structural)]
pub enum IsWindowValid {
    Valid,
    Invalid,
}

/// What the manager must do with a window after probing it.
#[derive(Clone, Copy, Debug, PartialEq, Eq, Structural)]
pub enum DrawStep {
    /// The window is unchanged: render its current capture.
    Render,
    /// The window resized: its capture was dropped and must be rebuilt at
    /// the stored size.
    Recapture,
    /// The window is gone or degenerate: drop it from the tracked set.
    Invalid,
}

/// A placement on the virtual surface: a position and an orientation.
#[derive(Clone, Copy, Debug, PartialEq, Eq, Structural)]
pub struct PoseFx {
    pub position: Vec3Fx,
    pub orientation: QuatFx,
}

/// A tracked window: handle, OS proxy, capture unit, pose, and z-order
/// depth.
pub struct VWindow {
    pub hwnd: i64,
    pub internal_window: IWindow,
    /// Absent only between a resize and the rebuilt capture.
    pub window_capture: Option<WindowCapture>,
    pub pose: PoseFx,
    pub z_depth: u32,
}

impl VWindow {
    /// The proxy agrees with the handle, its sizes stay in range, and a
    /// present capture quad matches the window's stored size.
    pub open spec fn wf(self) -> bool {
        &&& self.internal_window.wf()
        &&& self.internal_window.hwnd == self.hwnd
        &&& self.internal_window.fake_monitor.size.x > 2 * PARK_PADDING
        &&& self.internal_window.fake_monitor.size.y > 2 * PARK_PADDING
        &&& -COORD_FX_MAX <= self.pose.position.x <= COORD_FX_MAX
        &&& -COORD_FX_MAX <= self.pose.position.y <= COORD_FX_MAX
        &&& -COORD_FX_MAX <= self.pose.position.z <= COORD_FX_MAX
        &&& self.internal_window.stored_size.x <= PIXEL_MAX
        &&& self.internal_window.stored_size.y <= PIXEL_MAX
        &&& match self.window_capture {
            Some(c) => c.size.x == self.internal_window.stored_size.x * WINDOW_SCALE_FX
                && c.size.y == self.internal_window.stored_size.y * WINDOW_SCALE_FX,
            None => true,
        }
    }

    /// Builds a tracked window from the real window's current rectangle;
    /// fails exactly when the rectangle is inverted, and that handle is
    /// then blacklisted by the manager.
    pub fn new(hwnd: i64, fake_monitor: FakeMonitor, rect: Rect, pose: PoseFx, z_depth: u32) -> (r:
        Result<VWindow, RectError>)
        requires
            fake_monitor.wf(),
            fake_monitor.size.x > 2 * PARK_PADDING,
            fake_monitor.size.y > 2 * PARK_PADDING,
            rect.bounded(),
            rect.spec_width() <= PIXEL_MAX,
            rect.spec_height() <= PIXEL_MAX,
            -COORD_FX_MAX <= pose.position.x <= COORD_FX_MAX,
            -COORD_FX_MAX <= pose.position.y <= COORD_FX_MAX,
            -COORD_FX_MAX <= pose.position.z <= COORD_FX_MAX,
        ensures
            r is Ok <==> rect.valid(),
            r matches Ok(w) ==> w.wf() && w.hwnd == hwnd && w.pose == pose && w.z_depth == z_depth
                && w.window_capture is Some
                && w.internal_window.stored_size.x == rect.spec_width()
                && w.internal_window.stored_size.y == rect.spec_height(),
    {
        match IWindow::new(hwnd, fake_monitor, rect) {
            Err(e) => Err(e),
            Ok(internal_window) => {
                let window_capture = WindowCapture::new(internal_window.stored_size);
                Ok(
                    VWindow {
                        hwnd,
                        internal_window,
                        window_capture: Some(window_capture),
                        pose,
                        z_depth,
                    },
                )
            }
        }
    }

    /// How one frame's validity decision relates the window before the
    /// probe (`w0`), the window after it (`w1`), and the verdict `r`.
    pub open spec fn draw_update_rel(
        w0: VWindow,
        w1: VWindow,
        is_window: bool,
        current_size: Option<UVec2>,
        r: DrawStep,
    ) -> bool {
        &&& w1.hwnd == w0.hwnd
        &&& w1.z_depth == w0.z_depth
        &&& w1.pose == w0.pose
        &&& (!is_window ==> r is Invalid && w1 == w0)
        &&& (is_window && current_size == Some(w0.internal_window.stored_size) ==> r is Render
            && w1 == w0)
        &&& (is_window && current_size != Some(w0.internal_window.stored_size) ==> (
        match current_size {
            None => r is Invalid && w1 == w0,
            Some(s) => {
                if s.x == 0 || s.y == 0 {
                    r is Invalid && w1 == w0
                } else {
                    r is Recapture && w1.window_capture is None
                        && w1.internal_window.stored_size == s
                }
            }
        }))
    }

    /// One frame's validity decision, from what the OS reports: a vanished
    /// handle or a degenerate rectangle invalidates the window; a size
    /// change stores the new size and drops the capture for rebuilding; an
    /// unchanged window renders as it is.
    pub fn draw_update(&mut self, is_window: bool, current_size: Option<UVec2>) -> (r: DrawStep)
        requires
            old(self).wf(),
            current_size matches Some(s) ==> s.x <= PIXEL_MAX && s.y <= PIXEL_MAX,
        ensures
            final(self).wf(),
            VWindow::draw_update_rel(*old(self), *final(self), is_window, current_size, r),
    {
        if !is_window {
            return DrawStep::Invalid;
        }
        if self.internal_window.size_changed(current_size) {
            match current_size {
                None => DrawStep::Invalid,
                Some(s) => {
                    if s.x == 0 || s.y == 0 {
                        DrawStep::Invalid
                    } else {
                        self.internal_window.update_size(current_size);
                        self.window_capture = None;
                        DrawStep::Recapture
                    }
                }
            }
        } else {
            DrawStep::Render
        }
    }

    /// Installs the capture rebuilt after a resize, or reports the window
    /// invalid when rebuilding failed; the capture must have been built for
    /// the stored size.
    pub fn finish_recapture(&mut self, capture: Option<WindowCapture>) -> (r: IsWindowValid)
        requires
            old(self).wf(),
            capture matches Some(c) ==> c.size.x == old(self).internal_window.stored_size.x
                * WINDOW_SCALE_FX && c.size.y == old(self).internal_window.stored_size.y
                * WINDOW_SCALE_FX,
        ensures
            final(self).wf(),
            final(self).hwnd == old(self).hwnd,
            final(self).z_depth == old(self).z_depth,
            final(self).pose == old(self).pose,
            final(self).internal_window == old(self).internal_window,
            capture is Some ==> r is Valid && final(self).window_capture == capture,
            capture is None ==> r is Invalid
                && final(self).window_capture == old(self).window_capture,
    {
        match capture {
            Some(c) => {
                self.window_capture = Some(c);
                IsWindowValid::Valid
            }
            None => IsWindowValid::Invalid,
        }
    }
}

/// Virtual height of a window's grab bar.
pub const GRAB_BAR_HEIGHT_FX: i64 = 250;

/// The grab bar's shape and place for a window of the given pixel size: a
/// strip as wide as the window's quad and `GRAB_BAR_HEIGHT_FX` tall, whose
/// centre sits half the window's height plus half the bar's own height
/// above the window's centre, so the bar rests on the quad's top edge.  The
/// window's orientation is applied to this offset outside.
pub fn grab_bar_geometry(window_size: UVec2) -> (r: (Vec2Fx, i64))
    requires
        window_size.x <= PIXEL_MAX,
        window_size.y <= PIXEL_MAX,
    ensures
        r.0.x == window_size.x * WINDOW_SCALE_FX,
        r.0.y == GRAB_BAR_HEIGHT_FX,
        r.1 == window_size.y * WINDOW_SCALE_FX / 2 + GRAB_BAR_HEIGHT_FX / 2,
{
    let width: i64 = window_size.x as i64 * WINDOW_SCALE_FX;
    let lift: i64 = window_size.y as i64 * WINDOW_SCALE_FX / 2 + GRAB_BAR_HEIGHT_FX / 2;
    (Vec2Fx { x: width, y: GRAB_BAR_HEIGHT_FX }, lift)
}

} // verus!
