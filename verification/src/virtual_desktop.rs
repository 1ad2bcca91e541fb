//! The virtual desktop manager: the tracked window set, the z-order, and
//! the per-frame focus, grab, and capture state machine.
//!
//! The manager's state is mutated only from the frame loop.  Each frame the
//! loop reconciles the tracked set against a polled list of live window
//! handles, probes and draws every window, and then runs exactly one of
//! three branches: a grabbed window follows the cursor, an OS-captured
//! window holds or releases the real cursor, or hit-testing looks for a new
//! interaction.  At most one of "grabbed" and "captured" is ever set:
//! dragging a window and typing into a window's real content are mutually
//! exclusive modes.

use vstd::prelude::*;
use vstd::string::StrSliceExecFns;
use crate::capture::FrameQueue;
use crate::capture::calculate_crop_values;
use crate::capture::unfocused_crop;
use crate::capture::CropValues;
use crate::capture::WindowCapture;
use crate::capture::UNFOCUSED_TRIM_X;
use crate::capture::WINDOW_SCALE_FX;
use crate::internal_window::FakeMonitor;
use crate::internal_window::rect_size;
use crate::internal_window::MoveCommand;
use crate::internal_window::RATIO_FX_MAX;
use crate::internal_window::PIXEL_POS_MAX;
use crate::internal_window::Rect;
use crate::internal_window::PARK_PADDING;
use crate::mapping::COORD_FX_MAX;
use crate::mapping::PIXEL_MAX;
use crate::values::IVec2;
use crate::values::QuatFx;
use crate::values::Vec3Fx;
use crate::values::SCALE;
use crate::virtual_mouse::CursorType;
use crate::virtual_mouse::CURSOR_MODE_Y_FX;
use crate::virtual_mouse::ResizeType;
use crate::virtual_mouse::VMouse;
use crate::values::UVec2;
use crate::virtual_window::DrawStep;
use crate::virtual_window::IsWindowValid;
use crate::virtual_window::PoseFx;
use crate::virtual_window::VWindow;

verus! {

/// Pixel width that singles out the virtual monitor among the displays.
pub const MONITOR_WIDTH: i32 = 4000;

/// Frames between two runs of the slow housekeeping tick.
pub const DELAY_TICKS: u32 = 10;

/// The window manager's per-session state.
pub struct VDesktop {
    /// The tracked windows; handles and depths are unique across it.
    pub windows: Vec<VWindow>,
    /// Handles that failed construction once; never retried this session.
    pub skip_windows: Vec<i64>,
    /// The window being dragged by its grab bar, with the cursor-to-window
    /// offset taken when the drag began.
    pub grabbed_window: Option<(i64, Vec3Fx)>,
    /// The window a drag-resize targets, with its axis and offset.
    pub resize_window: Option<(i64, ResizeType, Vec3Fx)>,
    /// The window whose real content the OS cursor is routed into.
    pub captured_window: Option<i64>,
    /// The manager's own console window, never tracked.
    pub console_hwnd: i64,
    pub fake_monitor: FakeMonitor,
    pub v_mouse: VMouse,
    /// Pending frames of the shared desktop capture.
    pub desktop_frames: FrameQueue,
    /// The point the dome is centred on.
    pub center: Vec3Fx,
    /// The dome's radius.
    pub radius: i64,
    pub tick_counter: u32,
    /// True while the virtual cursor drives navigation; false once the OS
    /// cursor has been handed to a captured window's real content.
    pub lock_cursor: bool,
}

impl VDesktop {
    /// Whether a handle is currently tracked.
    pub open spec fn contains_hwnd(self, hwnd: i64) -> bool {
        exists|i: int| 0 <= i < self.windows@.len() && self.windows@[i].hwnd == hwnd
    }

    /// Whether a handle is blacklisted.
    pub open spec fn is_skipped(self, hwnd: i64) -> bool {
        self.skip_windows@.contains(hwnd)
    }

    /// The manager's invariant: every window well-formed, handles and
    /// depths unique, the slow tick within its period, and never both a
    /// grabbed and a captured window.
    pub open spec fn wf(self) -> bool {
        &&& forall|i: int| 0 <= i < self.windows@.len() ==> (#[trigger] self.windows@[i]).wf()
        &&& forall|i: int, j: int|
            0 <= i < self.windows@.len() && 0 <= j < self.windows@.len() && i != j
                ==> (#[trigger] self.windows@[i]).hwnd != (#[trigger] self.windows@[j]).hwnd
        &&& forall|i: int, j: int|
            0 <= i < self.windows@.len() && 0 <= j < self.windows@.len() && i != j
                ==> (#[trigger] self.windows@[i]).z_depth != (#[trigger] self.windows@[j]).z_depth
        &&& !(self.grabbed_window is Some && self.captured_window is Some)
        &&& match self.grabbed_window {
            Some(g) => -2 * COORD_FX_MAX <= g.1.x <= 2 * COORD_FX_MAX && -2 * COORD_FX_MAX
                <= g.1.y <= 2 * COORD_FX_MAX && -2 * COORD_FX_MAX <= g.1.z <= 2 * COORD_FX_MAX,
            None => true,
        }
        &&& self.tick_counter < DELAY_TICKS
        &&& 0 < self.radius <= COORD_FX_MAX
        &&& self.v_mouse.wf()
        &&& self.fake_monitor.wf()
        &&& self.fake_monitor.size.x > 2 * PARK_PADDING
        &&& self.fake_monitor.size.y > 2 * PARK_PADDING
    }

    /// A fresh manager on the given monitor: nothing tracked, nothing
    /// grabbed or captured, the cursor locked to virtual navigation and
    /// resting straight ahead on the dome.
    pub fn new(console_hwnd: i64, fake_monitor: FakeMonitor, radius: i64) -> (r: VDesktop)
        requires
            fake_monitor.wf(),
            fake_monitor.size.x > 2 * PARK_PADDING,
            fake_monitor.size.y > 2 * PARK_PADDING,
            0 < radius <= COORD_FX_MAX,
        ensures
            r.wf(),
            r.windows@.len() == 0,
            r.skip_windows@.len() == 0,
            r.grabbed_window is None,
            r.resize_window is None,
            r.captured_window is None,
            r.console_hwnd == console_hwnd,
            r.fake_monitor == fake_monitor,
            r.v_mouse.pos == (Vec3Fx { x: radius, y: 0, z: 0 }),
            r.desktop_frames.frames() =~= Seq::<u64>::empty(),
            r.center == (Vec3Fx { x: 0, y: 0, z: 0 }),
            r.radius == radius,
            r.lock_cursor,
    {
        VDesktop {
            windows: Vec::new(),
            skip_windows: Vec::new(),
            grabbed_window: None,
            resize_window: None,
            captured_window: None,
            console_hwnd,
            fake_monitor,
            v_mouse: VMouse::new(radius),
            desktop_frames: FrameQueue::new(),
            center: Vec3Fx { x: 0, y: 0, z: 0 },
            radius,
            tick_counter: 0,
            lock_cursor: true,
        }
    }

    /// The greatest depth among the tracked windows, or zero with none
    /// tracked.
    pub fn highest_z_depth(&self) -> (r: u32)
        ensures
            forall|i: int| 0 <= i < self.windows@.len() ==> (#[trigger] self.windows@[i]).z_depth
                <= r,
            self.windows@.len() == 0 ==> r == 0,
            self.windows@.len() > 0 ==> exists|i: int|
                0 <= i < self.windows@.len() && (#[trigger] self.windows@[i]).z_depth == r,
    {
        let mut highest: u32 = 0;
        let mut idx: usize = 0;
        let n = self.windows.len();
        while idx < n
            invariant
                n == self.windows@.len(),
                idx <= n,
                forall|i: int| 0 <= i < idx ==> (#[trigger] self.windows@[i]).z_depth <= highest,
                highest == 0 || exists|i: int|
                    0 <= i < idx && (#[trigger] self.windows@[i]).z_depth == highest,
                idx > 0 && highest == 0 ==> exists|i: int|
                    0 <= i < idx && (#[trigger] self.windows@[i]).z_depth == 0,
                idx == 0 ==> highest == 0,
            decreases n - idx,
        {
            if self.windows[idx].z_depth > highest {
                highest = self.windows[idx].z_depth;
            }
            idx = idx + 1;
        }
        highest
    }

    /// Whether a handle is currently tracked.
    pub fn contains(&self, hwnd: i64) -> (r: bool)
        ensures
            r == self.contains_hwnd(hwnd),
    {
        let mut idx: usize = 0;
        let n = self.windows.len();
        while idx < n
            invariant
                n == self.windows@.len(),
                idx <= n,
                forall|i: int| 0 <= i < idx ==> (#[trigger] self.windows@[i]).hwnd != hwnd,
            decreases n - idx,
        {
            if self.windows[idx].hwnd == hwnd {
                return true;
            }
            idx = idx + 1;
        }
        false
    }

    /// Whether the reconciliation pass should try to construct a window for
    /// this handle: not tracked yet and not blacklisted.
    pub fn should_track(&self, hwnd: i64) -> (r: bool)
        ensures
            r == (!self.contains_hwnd(hwnd) && !self.is_skipped(hwnd)),
    {
        if self.contains(hwnd) {
            return false;
        }
        let mut idx: usize = 0;
        let n = self.skip_windows.len();
        while idx < n
            invariant
                n == self.skip_windows@.len(),
                idx <= n,
                forall|i: int| 0 <= i < idx ==> self.skip_windows@[i] != hwnd,
            decreases n - idx,
        {
            if self.skip_windows[idx] == hwnd {
                return false;
            }
            idx = idx + 1;
        }
        true
    }

    /// Raises a window to the top of the z-order: every window above it
    /// moves down one step, the window takes the previous greatest depth,
    /// and the relative order of all other windows is unchanged.  Fails
    /// exactly when the handle is not tracked.
    #[verifier::rlimit(50)]
    pub fn bring_to_top(&mut self, id: i64) -> (r: Option<()>)
        requires
            old(self).wf(),
        ensures
            final(self).wf(),
            *final(self) == (VDesktop { windows: final(self).windows, ..*old(self) }),
            r is Some <==> old(self).contains_hwnd(id),
            final(self).windows@.len() == old(self).windows@.len(),
            final(self).grabbed_window == old(self).grabbed_window,
            final(self).resize_window == old(self).resize_window,
            final(self).captured_window == old(self).captured_window,
            final(self).skip_windows@ == old(self).skip_windows@,
            final(self).v_mouse == old(self).v_mouse,
            final(self).lock_cursor == old(self).lock_cursor,
            r is None ==> final(self).windows@ == old(self).windows@,
            r is Some ==> ({
                let ws = old(self).windows@;
                let fs = final(self).windows@;
                let target = choose|t: int| 0 <= t < ws.len() && ws[t].hwnd == id;
                let curr = ws[target].z_depth;
                &&& forall|i: int|
                    0 <= i < ws.len() ==> (#[trigger] fs[i]).hwnd == ws[i].hwnd && fs[i].pose
                        == ws[i].pose && fs[i].internal_window == ws[i].internal_window
                        && fs[i].window_capture == ws[i].window_capture
                &&& forall|i: int|
                    0 <= i < ws.len() && ws[i].hwnd != id ==> (#[trigger] fs[i]).z_depth == (
                    if ws[i].z_depth > curr {
                        ws[i].z_depth - 1
                    } else {
                        ws[i].z_depth as int
                    })
                &&& forall|i: int|
                    0 <= i < ws.len() && ws[i].hwnd == id ==> forall|j: int|
                        0 <= j < ws.len() ==> ws[j].z_depth <= (#[trigger] fs[i]).z_depth
                &&& forall|i: int|
                    0 <= i < ws.len() && ws[i].hwnd == id ==> exists|j: int|
                        0 <= j < ws.len() && ws[j].z_depth == (#[trigger] fs[i]).z_depth
                &&& forall|i: int, j: int|
                    0 <= i < ws.len() && 0 <= j < ws.len() && ws[i].hwnd != id && ws[j].hwnd != id
                        ==> ((#[trigger] fs[i]).z_depth < (#[trigger] fs[j]).z_depth <==> ws[
                        i
                    ].z_depth < ws[j].z_depth)
            }),
    {
        let highest_z = self.highest_z_depth();
        let mut target: usize = 0;
        let mut found = false;
        let n = self.windows.len();
        let mut idx: usize = 0;
        while idx < n && !found
            invariant
                *self == *old(self),
                n == self.windows@.len(),
                idx <= n,
                !found ==> forall|i: int| 0 <= i < idx ==> (#[trigger] self.windows@[i]).hwnd
                    != id,
                found ==> target < n && self.windows@[target as int].hwnd == id,
            decreases n - idx + (if found { 0int } else { 1int }),
        {
            if self.windows[idx].hwnd == id {
                target = idx;
                found = true;
            } else {
                idx = idx + 1;
            }
        }
        if !found {
            proof {
                assert(!old(self).contains_hwnd(id));
            }
            return None;
        }
        let curr_z = self.windows[target].z_depth;
        let ghost ws = self.windows@;
        let mut k: usize = 0;
        while k < n
            invariant
                *self == (VDesktop { windows: self.windows, ..*old(self) }),
                n == self.windows@.len(),
                ws.len() == n,
                k <= n,
                target < n,
                ws[target as int].z_depth == curr_z,
                ws[target as int].hwnd == id,
                forall|i: int| 0 <= i < n ==> (#[trigger] ws[i]).wf(),
                forall|i: int, j: int|
                    0 <= i < n && 0 <= j < n && i != j ==> (#[trigger] ws[i]).hwnd
                        != (#[trigger] ws[j]).hwnd,
                forall|i: int, j: int|
                    0 <= i < n && 0 <= j < n && i != j ==> (#[trigger] ws[i]).z_depth
                        != (#[trigger] ws[j]).z_depth,
                forall|i: int| k <= i < n ==> self.windows@[i] == ws[i],
                forall|i: int| 0 <= i < k ==> (#[trigger] self.windows@[i]) == (if ws[i].z_depth
                    > curr_z {
                    VWindow { z_depth: (ws[i].z_depth - 1) as u32, ..ws[i] }
                } else {
                    ws[i]
                }),
            decreases n - k,
        {
            let z = self.windows[k].z_depth;
            if z > curr_z {
                let mut w = self.windows.remove(k);
                w.z_depth = z - 1;
                self.windows.insert(k, w);
            }
            k = k + 1;
        }
        let mut w = self.windows.remove(target);
        w.z_depth = highest_z;
        self.windows.insert(target, w);
        proof {
            let ghost fs = self.windows@;
            assert forall|i: int| 0 <= i < n implies (#[trigger] fs[i]).wf() by {
                assert(ws[i].wf());
            }
            assert forall|i: int, j: int|
                0 <= i < n && 0 <= j < n && i != j implies (#[trigger] fs[i]).z_depth
                != (#[trigger] fs[j]).z_depth by {
                assert(ws[i].z_depth != ws[j].z_depth);
                assert(ws[i].hwnd != ws[j].hwnd);
                if i != target && j != target {
                    assert(ws[i].z_depth <= highest_z && ws[j].z_depth <= highest_z);
                }
            }
            let target_w = choose|t: int| 0 <= t < ws.len() && ws[t].hwnd == id;
            assert(target_w == target as int);
        }
        Some(())
    }

    /// Whether OS input is currently routed into this window.
    pub fn is_focused(&self, id: i64) -> (r: bool)
        ensures
            r == (self.captured_window == Some(id)),
    {
        match self.captured_window {
            None => false,
            Some(window_id) => window_id == id,
        }
    }

    /// Advances the slow housekeeping counter, which completes one period
    /// every `DELAY_TICKS` frames.
    pub fn delay_run(&mut self) -> (r: bool)
        requires
            old(self).wf(),
        ensures
            final(self).wf(),
            *final(self) == (VDesktop {
                tick_counter: final(self).tick_counter,
                ..*old(self)
            }),
            r == (old(self).tick_counter + 1 == DELAY_TICKS),
            final(self).tick_counter == if old(self).tick_counter + 1 == DELAY_TICKS {
                0u32
            } else {
                (old(self).tick_counter + 1) as u32
            },
    {
        self.tick_counter = self.tick_counter + 1;
        if self.tick_counter == DELAY_TICKS {
            self.tick_counter = 0;
            true
        } else {
            false
        }
    }

    /// Drops a tracked window, as the reconciliation pass does after an
    /// invalid verdict; nothing else changes, and every other window stays.
    pub fn remove_window(&mut self, hwnd: i64) -> (r: bool)
        requires
            old(self).wf(),
        ensures
            final(self).wf(),
            *final(self) == (VDesktop { windows: final(self).windows, ..*old(self) }),
            r == old(self).contains_hwnd(hwnd),
            !final(self).contains_hwnd(hwnd),
            !r ==> *final(self) == *old(self),
            r ==> exists|i: int|
                0 <= i < old(self).windows@.len() && old(self).windows@[i].hwnd == hwnd
                    && final(self).windows@ == old(self).windows@.remove(i),
            final(self).grabbed_window == old(self).grabbed_window,
            final(self).resize_window == old(self).resize_window,
            final(self).captured_window == old(self).captured_window,
            final(self).skip_windows@ == old(self).skip_windows@,
            forall|h: i64|
                h != hwnd ==> #[trigger] final(self).contains_hwnd(h)
                    == old(self).contains_hwnd(h),
    {
        let n = self.windows.len();
        let mut idx: usize = 0;
        while idx < n
            invariant
                *self == *old(self),
                old(self).wf(),
                n == self.windows@.len(),
                idx <= n,
                forall|i: int| 0 <= i < idx ==> (#[trigger] self.windows@[i]).hwnd != hwnd,
            decreases n - idx,
        {
            if self.windows[idx].hwnd == hwnd {
                let ghost ws = self.windows@;
                self.windows.remove(idx);
                proof {
                    ws.remove_ensures(idx as int);
                    assert(old(self).contains_hwnd(hwnd)) by {
                        assert(ws[idx as int].hwnd == hwnd);
                    }
                    assert forall|i: int|
                        0 <= i < self.windows@.len() implies (#[trigger] self.windows@[i]).wf() by {
                        if i < idx {
                            assert(self.windows@[i] == ws[i]);
                        } else {
                            assert(self.windows@[i] == ws[i + 1]);
                        }
                    }
                    assert forall|i: int, j: int|
                        0 <= i < self.windows@.len() && 0 <= j < self.windows@.len() && i != j
                        implies (#[trigger] self.windows@[i]).hwnd
                        != (#[trigger] self.windows@[j]).hwnd by {
                        let oi: int = if i < idx { i } else { i + 1 };
                        let oj: int = if j < idx { j } else { j + 1 };
                        assert(self.windows@[i] == ws[oi]);
                        assert(self.windows@[j] == ws[oj]);
                        assert(ws[oi].hwnd != ws[oj].hwnd);
                    }
                    assert forall|i: int, j: int|
                        0 <= i < self.windows@.len() && 0 <= j < self.windows@.len() && i != j
                        implies (#[trigger] self.windows@[i]).z_depth
                        != (#[trigger] self.windows@[j]).z_depth by {
                        let oi: int = if i < idx { i } else { i + 1 };
                        let oj: int = if j < idx { j } else { j + 1 };
                        assert(self.windows@[i] == ws[oi]);
                        assert(self.windows@[j] == ws[oj]);
                        assert(ws[oi].z_depth != ws[oj].z_depth);
                    }
                    assert forall|h: i64| h != hwnd implies #[trigger] self.contains_hwnd(h)
                        == old(self).contains_hwnd(h) by {
                        if old(self).contains_hwnd(h) {
                            let i = choose|i: int|
                                0 <= i < ws.len() && ws[i].hwnd == h;
                            if i < idx {
                                assert(self.windows@[i].hwnd == h);
                            } else if i > idx {
                                assert(self.windows@[i - 1].hwnd == h);
                            }
                        } else {
                            if self.contains_hwnd(h) {
                                let i = choose|i: int|
                                    0 <= i < self.windows@.len() && self.windows@[i].hwnd == h;
                                if i < idx {
                                    assert(ws[i].hwnd == h);
                                } else {
                                    assert(ws[i + 1].hwnd == h);
                                }
                            }
                        }
                    }
                    assert forall|i: int|
                        0 <= i < self.windows@.len() implies (#[trigger] self.windows@[i]).hwnd
                        != hwnd by {
                        if i >= idx {
                            assert(self.windows@[i] == ws[i + 1]);
                            assert(ws[idx as int].hwnd == hwnd);
                        }
                    }
                }
                return true;
            }
            idx = idx + 1;
        }
        false
    }
}

impl VDesktop {
    /// Takes the outcome of building a window for a newly appeared handle:
    /// a built window joins the tracked set one depth above the current
    /// top, and a failed handle is blacklisted for the session.
    pub fn register_window(&mut self, hwnd: i64, built: Option<VWindow>)
        requires
            old(self).wf(),
            !old(self).contains_hwnd(hwnd),
            built matches Some(w) ==> w.wf() && w.hwnd == hwnd,
            forall|i: int| 0 <= i < old(self).windows@.len()
                ==> (#[trigger] old(self).windows@[i]).z_depth < u32::MAX,
        ensures
            final(self).wf(),
            *final(self) == (VDesktop {
                windows: final(self).windows,
                skip_windows: final(self).skip_windows,
                ..*old(self)
            }),
            built is Some ==> ({
                &&& final(self).contains_hwnd(hwnd)
                &&& final(self).windows@.len() == old(self).windows@.len() + 1
                &&& forall|i: int| 0 <= i < old(self).windows@.len()
                    ==> #[trigger] final(self).windows@[i] == old(self).windows@[i]
                &&& final(self).windows@.last().hwnd == hwnd
                &&& forall|i: int| 0 <= i < old(self).windows@.len()
                    ==> (#[trigger] old(self).windows@[i]).z_depth
                        < final(self).windows@.last().z_depth
                &&& (old(self).windows@.len() == 0 ==> final(self).windows@.last().z_depth == 1)
                &&& (old(self).windows@.len() > 0 ==> exists|i: int|
                    0 <= i < old(self).windows@.len()
                        && (#[trigger] old(self).windows@[i]).z_depth + 1
                        == final(self).windows@.last().z_depth)
                &&& final(self).skip_windows@ == old(self).skip_windows@
            }),
            built is None ==> ({
                &&& final(self).windows@ == old(self).windows@
                &&& final(self).skip_windows@ == old(self).skip_windows@.push(hwnd)
                &&& final(self).is_skipped(hwnd)
            }),
            final(self).grabbed_window == old(self).grabbed_window,
            final(self).resize_window == old(self).resize_window,
            final(self).captured_window == old(self).captured_window,
            final(self).v_mouse == old(self).v_mouse,
            final(self).lock_cursor == old(self).lock_cursor,
    {
        match built {
            Some(mut w) => {
                let z = self.highest_z_depth();
                w.z_depth = z + 1;
                self.windows.push(w);
                proof {
                    assert forall|i: int, j: int|
                        0 <= i < self.windows@.len() && 0 <= j < self.windows@.len() && i != j
                        implies (#[trigger] self.windows@[i]).hwnd
                        != (#[trigger] self.windows@[j]).hwnd by {
                        let n = old(self).windows@.len() as int;
                        if i < n && j < n {
                            assert(old(self).windows@[i].hwnd != old(self).windows@[j].hwnd);
                        }
                    }
                }
            }
            None => {
                self.skip_windows.push(hwnd);
                proof {
                    assert(self.skip_windows@[self.skip_windows@.len() - 1] == hwnd);
                }
            }
        }
    }

    /// Runs one tracked window's per-frame validity decision (`draw_update`
    /// of the window at index `i`) inside the set; nothing else changes.
    pub fn draw_window(&mut self, i: usize, is_window: bool, current_size: Option<UVec2>) -> (r:
        DrawStep)
        requires
            old(self).wf(),
            i < old(self).windows@.len(),
            current_size matches Some(s) ==> s.x <= PIXEL_MAX && s.y <= PIXEL_MAX,
        ensures
            final(self).wf(),
            *final(self) == (VDesktop { windows: final(self).windows, ..*old(self) }),
            final(self).windows@.len() == old(self).windows@.len(),
            forall|j: int|
                0 <= j < old(self).windows@.len() && j != i ==> #[trigger] final(self).windows@[j]
                    == old(self).windows@[j],
            VWindow::draw_update_rel(
                old(self).windows@[i as int],
                final(self).windows@[i as int],
                is_window,
                current_size,
                r,
            ),
            final(self).grabbed_window == old(self).grabbed_window,
            final(self).resize_window == old(self).resize_window,
            final(self).captured_window == old(self).captured_window,
            final(self).skip_windows@ == old(self).skip_windows@,
            final(self).v_mouse == old(self).v_mouse,
            final(self).lock_cursor == old(self).lock_cursor,
    {
        let ghost ws = self.windows@;
        let mut w = self.windows.remove(i);
        let r = w.draw_update(is_window, current_size);
        let ghost wg = w;
        self.windows.insert(i, w);
        proof {
            assert(self.windows@ =~= ws.update(i as int, wg));
            lemma_update_keeps_uniqueness(ws, self.windows@, i as int);
        }
        r
    }

    /// Installs one window's rebuilt capture (`finish_recapture` of the
    /// window at index `i`) inside the set; nothing else changes.
    pub fn finish_window_recapture(&mut self, i: usize, capture: Option<WindowCapture>) -> (r:
        IsWindowValid)
        requires
            old(self).wf(),
            i < old(self).windows@.len(),
            capture matches Some(c) ==> c.size.x == old(self).windows@[i as int].internal_window.stored_size.x * WINDOW_SCALE_FX && c.size.y
                == old(self).windows@[i as int].internal_window.stored_size.y * WINDOW_SCALE_FX,
        ensures
            final(self).wf(),
            *final(self) == (VDesktop { windows: final(self).windows, ..*old(self) }),
            final(self).windows@.len() == old(self).windows@.len(),
            forall|j: int|
                0 <= j < old(self).windows@.len() && j != i ==> #[trigger] final(self).windows@[j]
                    == old(self).windows@[j],
            ({
                let w0 = old(self).windows@[i as int];
                let w1 = final(self).windows@[i as int];
                &&& w1.hwnd == w0.hwnd
                &&& w1.z_depth == w0.z_depth
                &&& w1.pose == w0.pose
                &&& w1.internal_window == w0.internal_window
                &&& (capture is Some ==> r is Valid && w1.window_capture == capture)
                &&& (capture is None ==> r is Invalid && w1.window_capture == w0.window_capture)
            }),
            final(self).grabbed_window == old(self).grabbed_window,
            final(self).resize_window == old(self).resize_window,
            final(self).captured_window == old(self).captured_window,
            final(self).skip_windows@ == old(self).skip_windows@,
    {
        let ghost ws = self.windows@;
        let mut w = self.windows.remove(i);
        let r = w.finish_recapture(capture);
        let ghost wg = w;
        self.windows.insert(i, w);
        proof {
            assert(self.windows@ =~= ws.update(i as int, wg));
            lemma_update_keeps_uniqueness(ws, self.windows@, i as int);
        }
        r
    }
}

impl VDesktop {
    /// Index of a tracked handle in the window list.
    fn find_index(&self, hwnd: i64) -> (r: Option<usize>)
        ensures
            r is Some <==> self.contains_hwnd(hwnd),
            r matches Some(i) ==> i < self.windows@.len() && self.windows@[i as int].hwnd == hwnd,
    {
        let mut idx: usize = 0;
        let n = self.windows.len();
        while idx < n
            invariant
                n == self.windows@.len(),
                idx <= n,
                forall|i: int| 0 <= i < idx ==> (#[trigger] self.windows@[i]).hwnd != hwnd,
            decreases n - idx,
        {
            if self.windows[idx].hwnd == hwnd {
                return Some(idx);
            }
            idx = idx + 1;
        }
        None
    }

    /// One frame of the OS-captured branch: while the real cursor stays
    /// inside the captured window's rectangle (within the border tolerance)
    /// the capture holds; once it leaves, the capture ends and the caller
    /// re-derives the virtual cursor for the returned handle.  A vanished
    /// window or unreadable rectangle ends the capture silently.
    pub fn captured_tick(&mut self, mouse_pos: IVec2, win_pos: IVec2, current_size: Option<
        UVec2,
    >) -> (r: Option<i64>)
        requires
            old(self).wf(),
            current_size matches Some(s) ==> s.x <= PIXEL_MAX && s.y <= PIXEL_MAX,
        ensures
            final(self).wf(),
            *final(self) == (VDesktop {
                captured_window: final(self).captured_window,
                ..*old(self)
            }),
            old(self).captured_window is None ==> *final(self) == *old(self) && r is None,
            old(self).captured_window matches Some(id) ==> ({
                if !old(self).contains_hwnd(id) {
                    final(self).captured_window is None && r is None
                } else {
                    match current_size {
                        None => final(self).captured_window is None && r is None,
                        Some(size) => {
                            if spec_outside_rect(mouse_pos, win_pos, size) {
                                final(self).captured_window is None && r == Some(id)
                            } else {
                                final(self).captured_window == Some(id) && r is None
                            }
                        }
                    }
                }
            }),
    {
        let id = match self.captured_window {
            None => {
                return None;
            }
            Some(id) => id,
        };
        self.captured_window = None;
        if !self.contains(id) {
            return None;
        }
        match current_size {
            None => None,
            Some(size) => {
                if captured_outside_rect(mouse_pos, win_pos, size) {
                    Some(id)
                } else {
                    self.captured_window = Some(id);
                    None
                }
            }
        }
    }

    /// Starts dragging a window by its grab bar: records the window and the
    /// cursor-to-window offset at the moment the button went down.  Only
    /// reachable while no window is OS-captured, so the two modes stay
    /// exclusive.
    pub fn try_grab(&mut self, id: i64) -> (r: bool)
        requires
            old(self).wf(),
            old(self).captured_window is None,
        ensures
            final(self).wf(),
            *final(self) == (VDesktop { grabbed_window: final(self).grabbed_window, ..*old(self) }),
            r == old(self).contains_hwnd(id),
            !r ==> *final(self) == *old(self),
            r ==> ({
                let t = choose|t: int|
                    0 <= t < old(self).windows@.len() && old(self).windows@[t].hwnd == id;
                final(self).grabbed_window == Some(
                    (
                        id,
                        Vec3Fx {
                            x: (old(self).windows@[t].pose.position.x - old(self).v_mouse.pos.x)
                                as i64,
                            y: (old(self).windows@[t].pose.position.y - old(self).v_mouse.pos.y)
                                as i64,
                            z: (old(self).windows@[t].pose.position.z - old(self).v_mouse.pos.z)
                                as i64,
                        },
                    ),
                )
            }),
    {
        match self.find_index(id) {
            None => false,
            Some(i) => {
                let wpos = self.windows[i].pose.position;
                let offset = Vec3Fx {
                    x: wpos.x - self.v_mouse.pos.x,
                    y: wpos.y - self.v_mouse.pos.y,
                    z: wpos.z - self.v_mouse.pos.z,
                };
                self.grabbed_window = Some((id, offset));
                proof {
                    let t = choose|t: int|
                        0 <= t < self.windows@.len() && self.windows@[t].hwnd == id;
                    assert(t == i as int);
                }
                true
            }
        }
    }

    /// The point the dragged window should sit at before it is snapped back
    /// onto the dome: the cursor plus the grab offset.  `None` when nothing
    /// is grabbed.
    pub fn grab_target(&self) -> (r: Option<Vec3Fx>)
        requires
            self.wf(),
        ensures
            self.grabbed_window is None ==> r is None,
            self.grabbed_window matches Some((_, off)) ==> r == Some(
                Vec3Fx {
                    x: (self.v_mouse.pos.x + off.x) as i64,
                    y: (self.v_mouse.pos.y + off.y) as i64,
                    z: (self.v_mouse.pos.z + off.z) as i64,
                },
            ),
    {
        match self.grabbed_window {
            None => None,
            Some((_, off)) => Some(
                Vec3Fx {
                    x: self.v_mouse.pos.x + off.x,
                    y: self.v_mouse.pos.y + off.y,
                    z: self.v_mouse.pos.z + off.z,
                },
            ),
        }
    }

    /// Starts a drag-resize on a window after a corner hit: records the
    /// window, the resize axis, and the cursor's offset from the window's
    /// lower edge at the moment the button went down.  Only reachable while
    /// nothing is grabbed or captured.  Fails when the window is unknown or
    /// its capture is absent.
    pub fn begin_resize(&mut self, id: i64, axis: ResizeType) -> (r: bool)
        requires
            old(self).wf(),
            old(self).grabbed_window is None,
            old(self).captured_window is None,
        ensures
            final(self).wf(),
            *final(self) == (VDesktop { resize_window: final(self).resize_window, ..*old(self) }),
            ({
                let t = choose|t: int|
                    0 <= t < old(self).windows@.len() && old(self).windows@[t].hwnd == id;
                &&& r == (old(self).contains_hwnd(id) && old(self).windows@[t].window_capture
                    is Some)
                &&& !r ==> *final(self) == *old(self)
                &&& r ==> ({
                    let w = old(self).windows@[t];
                    let quad_height = w.window_capture->Some_0.size.y;
                    final(self).resize_window == Some(
                        (
                            id,
                            axis,
                            Vec3Fx {
                                x: (w.pose.position.x - old(self).v_mouse.pos.x) as i64,
                                y: (w.pose.position.y - quad_height / 2 - old(
                                    self,
                                ).v_mouse.pos.y) as i64,
                                z: (w.pose.position.z - old(self).v_mouse.pos.z) as i64,
                            },
                        ),
                    )
                })
            }),
    {
        match self.find_index(id) {
            None => false,
            Some(i) => {
                let quad_height: i64 = match &self.windows[i].window_capture {
                    Some(c) => c.size.y,
                    None => {
                        proof {
                            let t = choose|t: int|
                                0 <= t < self.windows@.len() && self.windows@[t].hwnd == id;
                            assert(t == i as int);
                        }
                        return false;
                    }
                };
                let wpos = self.windows[i].pose.position;
                let offset = Vec3Fx {
                    x: wpos.x - self.v_mouse.pos.x,
                    y: wpos.y - quad_height / 2 - self.v_mouse.pos.y,
                    z: wpos.z - self.v_mouse.pos.z,
                };
                self.resize_window = Some((id, axis, offset));
                proof {
                    let t = choose|t: int|
                        0 <= t < self.windows@.len() && self.windows@[t].hwnd == id;
                    assert(t == i as int);
                }
                true
            }
        }
    }

    /// One frame of the grab branch: while the button stays down the
    /// grabbed window takes the snapped position and faces the user (tilt
    /// zeroed above the mode threshold); releasing the button, or losing
    /// the window, ends the grab.  Returns whether the grab continues.
    pub fn grab_tick(&mut self, left_active: bool, snapped_pos: Vec3Fx, look: QuatFx) -> (r: bool)
        requires
            old(self).wf(),
            old(self).grabbed_window is Some,
            -COORD_FX_MAX <= snapped_pos.x <= COORD_FX_MAX,
            -COORD_FX_MAX <= snapped_pos.y <= COORD_FX_MAX,
            -COORD_FX_MAX <= snapped_pos.z <= COORD_FX_MAX,
        ensures
            final(self).wf(),
            *final(self) == (VDesktop {
                windows: final(self).windows,
                grabbed_window: final(self).grabbed_window,
                ..*old(self)
            }),
            final(self).captured_window is None,
            !left_active ==> final(self).grabbed_window is None && final(self).windows@ == old(self).windows@ && !r,
            left_active ==> ({
                let id = old(self).grabbed_window->Some_0.0;
                if !old(self).contains_hwnd(id) {
                    final(self).grabbed_window is None && final(self).windows@ == old(self).windows@ && !r
                } else {
                    let t = choose|t: int|
                        0 <= t < old(self).windows@.len() && old(self).windows@[t].hwnd == id;
                    &&& r
                    &&& final(self).grabbed_window == old(self).grabbed_window
                    &&& final(self).windows@.len() == old(self).windows@.len()
                    &&& forall|j: int|
                        0 <= j < old(self).windows@.len() && j != t ==> #[trigger] final(self).windows@[j] == old(self).windows@[j]
                    &&& final(self).windows@[t].pose.position == snapped_pos
                    &&& final(self).windows@[t].pose.orientation == (if old(self).v_mouse.pos.y
                        > CURSOR_MODE_Y_FX {
                        QuatFx { x: 0, z: 0, ..look }
                    } else {
                        look
                    })
                    &&& final(self).windows@[t].hwnd == old(self).windows@[t].hwnd
                    &&& final(self).windows@[t].z_depth == old(self).windows@[t].z_depth
                    &&& final(self).windows@[t].internal_window == old(self).windows@[t].internal_window
                    &&& final(self).windows@[t].window_capture == old(self).windows@[t].window_capture
                }
            }),
    {
        let (id, offset) = match self.grabbed_window {
            Some(pair) => pair,
            None => {
                return false;
            }
        };
        if !left_active {
            self.grabbed_window = None;
            return false;
        }
        match self.find_index(id) {
            None => {
                self.grabbed_window = None;
                false
            }
            Some(i) => {
                let orientation = face_user_orientation(look, self.v_mouse.pos.y);
                let ghost ws = self.windows@;
                let mut w = self.windows.remove(i);
                w.pose = PoseFx { position: snapped_pos, orientation };
                let ghost wg = w;
                self.windows.insert(i, w);
                proof {
                    assert(self.windows@ =~= ws.update(i as int, wg));
                    lemma_update_keeps_uniqueness(ws, self.windows@, i as int);
                    let t = choose|t: int| 0 <= t < ws.len() && ws[t].hwnd == id;
                    assert(t == i as int);
                }
                true
            }
        }
    }

    /// One frame of the dormant drag-resize mode: it holds its target while
    /// the button stays down and clears it when the button is released.
    pub fn resize_tick(&mut self, left_active: bool)
        requires
            old(self).wf(),
        ensures
            final(self).wf(),
            *final(self) == (VDesktop { resize_window: final(self).resize_window, ..*old(self) }),
            left_active ==> final(self).resize_window == old(self).resize_window,
            !left_active ==> final(self).resize_window is None,
    {
        if !left_active {
            self.resize_window = None;
        }
    }

    /// The move that a resize click asks the OS for: the clicked window
    /// refitted to the padded half-monitor box at the new ratio, at its
    /// current position.  `None` when the window is unknown or the stepped
    /// ratio has left the accepted range.
    pub fn resize_command(&self, id: i64, new_ratio_fx: i64, current_pos: IVec2) -> (r: Option<
        MoveCommand,
    >)
        requires
            self.wf(),
        ensures
            r is Some <==> (self.contains_hwnd(id) && 0 < new_ratio_fx <= RATIO_FX_MAX),
            r matches Some(cmd) ==> ({
                let t = choose|t: int|
                    0 <= t < self.windows@.len() && self.windows@[t].hwnd == id;
                &&& cmd.hwnd == id
                &&& cmd.pos == current_pos
                &&& (cmd.size.x as int, cmd.size.y as int)
                    == self.windows@[t].internal_window.spec_aspect_size(new_ratio_fx as int)
            }),
    {
        if new_ratio_fx <= 0 || new_ratio_fx > RATIO_FX_MAX {
            return None;
        }
        match self.find_index(id) {
            None => None,
            Some(i) => {
                let cmd = self.windows[i].internal_window.set_aspect_ratio(
                    new_ratio_fx,
                    current_pos,
                );
                proof {
                    let t = choose|t: int|
                        0 <= t < self.windows@.len() && self.windows@[t].hwnd == id;
                    assert(t == i as int);
                }
                Some(cmd)
            }
        }
    }

    /// Transfers OS focus into a window after a content click: the window
    /// becomes the captured one, and the returned point is where the real
    /// cursor must be placed — the hit pixel offset by the window's real
    /// position.  Only reachable while nothing is grabbed, so the two modes
    /// stay exclusive.
    pub fn begin_capture(&mut self, id: i64, hit_px: UVec2, win_pos: IVec2) -> (r: IVec2)
        requires
            old(self).wf(),
            old(self).grabbed_window is None,
            old(self).contains_hwnd(id),
            hit_px.x <= PIXEL_MAX,
            hit_px.y <= PIXEL_MAX,
            -PIXEL_POS_MAX <= win_pos.x <= PIXEL_POS_MAX,
            -PIXEL_POS_MAX <= win_pos.y <= PIXEL_POS_MAX,
        ensures
            final(self).wf(),
            *final(self) == (VDesktop { captured_window: Some(id), ..*old(self) }),
            final(self).grabbed_window is None,
            r.x == win_pos.x + hit_px.x,
            r.y == win_pos.y + hit_px.y,
    {
        self.captured_window = Some(id);
        let x: i64 = win_pos.x as i64 + hit_px.x as i64;
        let y: i64 = win_pos.y as i64 + hit_px.y as i64;
        IVec2 { x: x as i32, y: y as i32 }
    }

    /// Rebuilds a window's capture crop after focus moved.  With a window
    /// now captured, the crop shows the window's real rectangle out of the
    /// shared desktop capture; with none, the window shows its own capture
    /// under the fixed edge trim.  `None` when the window, its capture, or
    /// the needed rectangle is missing or degenerate, in which case nothing
    /// changes.
    pub fn refresh_crop(&mut self, id: i64, current_size: Option<UVec2>, real_rect: Rect) -> (r:
        Option<CropValues>)
        requires
            old(self).wf(),
            real_rect.bounded(),
            real_rect.spec_width() <= PIXEL_MAX,
            real_rect.spec_height() <= PIXEL_MAX,
            current_size matches Some(s) ==> s.x <= PIXEL_MAX && s.y <= PIXEL_MAX,
        ensures
            final(self).wf(),
            *final(self) == (VDesktop { windows: final(self).windows, ..*old(self) }),
            final(self).windows@.len() == old(self).windows@.len(),
            forall|j: int|
                0 <= j < old(self).windows@.len() && old(self).windows@[j].hwnd != id
                    ==> #[trigger] final(self).windows@[j] == old(self).windows@[j],
            r is None ==> final(self).windows@ == old(self).windows@,
            !old(self).contains_hwnd(id) ==> r is None,
            old(self).contains_hwnd(id) ==> ({
                let t = choose|t: int|
                    0 <= t < old(self).windows@.len() && old(self).windows@[t].hwnd == id;
                let inputs_ok = if old(self).captured_window is Some {
                    real_rect.valid()
                } else {
                    current_size matches Some(s) && s.x >= UNFOCUSED_TRIM_X && s.y > 0
                };
                inputs_ok && old(self).windows@[t].window_capture is Some ==> r is Some
            }),
            r matches Some(crop) ==> ({
                let t = choose|t: int|
                    0 <= t < old(self).windows@.len() && old(self).windows@[t].hwnd == id;
                let w0 = old(self).windows@[t];
                let w1 = final(self).windows@[t];
                &&& (if old(self).captured_window is Some {
                    real_rect.valid() && crop == crate::capture::spec_crop_values(
                        old(self).fake_monitor.pos.x as int,
                        old(self).fake_monitor.pos.y as int,
                        old(self).fake_monitor.size.x as int,
                        old(self).fake_monitor.size.y as int,
                        real_rect.left as int,
                        real_rect.top as int,
                        real_rect.spec_width(),
                        real_rect.spec_height(),
                    )
                } else {
                    current_size matches Some(s) && s.x >= UNFOCUSED_TRIM_X && s.y > 0 && crop
                        == crate::capture::spec_unfocused_crop(s)
                })
                &&& w0.window_capture matches Some(c0)
                &&& w1.window_capture matches Some(c1) && c1.crop == crop && c1.size == c0.size
                    && c1.displayed == c0.displayed && c1.frames.frames() =~= c0.frames.frames()
                &&& w1.hwnd == w0.hwnd && w1.z_depth == w0.z_depth && w1.pose == w0.pose
                    && w1.internal_window == w0.internal_window
            }),
    {
        let focused = self.captured_window.is_some();
        let crop = if focused {
            match rect_size(real_rect) {
                None => {
                    return None;
                }
                Some(size) => calculate_crop_values(
                    self.fake_monitor.pos.x,
                    self.fake_monitor.pos.y,
                    self.fake_monitor.size.x,
                    self.fake_monitor.size.y,
                    real_rect.left,
                    real_rect.top,
                    size.x,
                    size.y,
                ),
            }
        } else {
            match current_size {
                None => {
                    return None;
                }
                Some(s) => {
                    if s.x < UNFOCUSED_TRIM_X || s.y == 0 {
                        return None;
                    }
                    unfocused_crop(s)
                }
            }
        };
        match self.find_index(id) {
            None => None,
            Some(i) => {
                let ghost ws = self.windows@;
                let mut w = self.windows.remove(i);
                match &mut w.window_capture {
                    None => {
                        self.windows.insert(i, w);
                        proof {
                            assert(self.windows@ =~= ws);
                        }
                        None
                    }
                    Some(capture) => {
                        capture.set_crop(crop);
                        let ghost wg = w;
                        self.windows.insert(i, w);
                        proof {
                            assert(self.windows@ =~= ws.update(i as int, wg));
                            lemma_update_keeps_uniqueness(ws, self.windows@, i as int);
                            let t = choose|t: int|
                                0 <= t < ws.len() && ws[t].hwnd == id;
                            assert(t == i as int);
                        }
                        Some(crop)
                    }
                }
            }
        }
    }
}

/// Pixel tolerance around a captured window's rectangle within which the
/// real cursor is considered still inside it.
pub const CAPTURE_BORDER: i32 = 8;

/// Extra pixels of tolerance below a captured window's bottom edge.
pub const CAPTURE_BORDER_EXTRA_Y: i32 = 2;

/// Fraction of a window's quad, from each edge, that counts as a resize
/// affordance under the cursor.
pub const HIT_MARGIN_FX: i64 = 300;

/// How much one resize click changes a window's aspect ratio.
pub const ASPECT_STEP_FX: i64 = 1000;

/// Whether the real cursor has left a captured window's rectangle, beyond
/// the border tolerance.
pub open spec fn spec_outside_rect(mouse_pos: IVec2, win_pos: IVec2, win_size: UVec2) -> bool {
    ||| mouse_pos.x - CAPTURE_BORDER < win_pos.x
    ||| mouse_pos.y - CAPTURE_BORDER < win_pos.y
    ||| mouse_pos.x + CAPTURE_BORDER > win_pos.x + win_size.x
    ||| mouse_pos.y + CAPTURE_BORDER + CAPTURE_BORDER_EXTRA_Y > win_pos.y + win_size.y
}

/// Whether the real cursor has left a captured window's rectangle, beyond
/// the border tolerance.
pub fn captured_outside_rect(mouse_pos: IVec2, win_pos: IVec2, win_size: UVec2) -> (r: bool)
    requires
        win_size.x <= PIXEL_MAX,
        win_size.y <= PIXEL_MAX,
    ensures
        r == spec_outside_rect(mouse_pos, win_pos, win_size),
{
    let mx: i64 = mouse_pos.x as i64;
    let my: i64 = mouse_pos.y as i64;
    let px: i64 = win_pos.x as i64;
    let py: i64 = win_pos.y as i64;
    let border: i64 = CAPTURE_BORDER as i64;
    let extra: i64 = CAPTURE_BORDER_EXTRA_Y as i64;
    let sx: i64 = win_size.x as i64;
    let sy: i64 = win_size.y as i64;
    mx - border < px || my - border < py || mx + border > px + sx || my + border + extra > py + sy
}

/// Where on a window's quad the cursor's ray landed, for choosing a cursor
/// glyph and an action.
#[derive(Clone, Copy, Debug, PartialEq, Eq, Structural)]
pub enum HitRegion {
    /// Near the left corners: shows the left-leaning resize glyph.
    CornerLeft,
    /// Near the right corners: shows the right-leaning resize glyph.
    CornerRight,
    /// Near the left or right edge: a click steps the aspect ratio.
    EdgeHorizontal,
    /// Near the top or bottom edge: a click steps the aspect ratio the
    /// other way.
    EdgeVertical,
    /// In the window's content: a click transfers OS focus into it.
    Inside,
}

/// The region a hit at quad fraction `(u, v)` falls in, testing the zones
/// in the manager's order: corners first, then the left and right margins,
/// then the top and bottom margins.
pub open spec fn spec_classify_hit(u: int, v: int) -> HitRegion {
    let a = HIT_MARGIN_FX as int;
    let b = SCALE - HIT_MARGIN_FX;
    if u <= a && v >= b {
        HitRegion::CornerLeft
    } else if u <= a && v <= a {
        HitRegion::CornerLeft
    } else if u >= b && v >= b {
        HitRegion::CornerRight
    } else if u >= b && v <= a {
        HitRegion::CornerRight
    } else if u <= a {
        HitRegion::EdgeHorizontal
    } else if u >= b {
        HitRegion::EdgeHorizontal
    } else if v <= a {
        HitRegion::EdgeVertical
    } else if v >= b {
        HitRegion::EdgeVertical
    } else {
        HitRegion::Inside
    }
}

/// Classifies a hit on a window's quad from its fractions of the quad's
/// extent (the vertical fraction already flipped so zero is the top).
pub fn classify_hit(u: i64, v: i64) -> (r: HitRegion)
    ensures
        r == spec_classify_hit(u as int, v as int),
{
    let a: i64 = HIT_MARGIN_FX;
    let b: i64 = SCALE - HIT_MARGIN_FX;
    if u <= a && v >= b {
        HitRegion::CornerLeft
    } else if u <= a && v <= a {
        HitRegion::CornerLeft
    } else if u >= b && v >= b {
        HitRegion::CornerRight
    } else if u >= b && v <= a {
        HitRegion::CornerRight
    } else if u <= a {
        HitRegion::EdgeHorizontal
    } else if u >= b {
        HitRegion::EdgeHorizontal
    } else if v <= a {
        HitRegion::EdgeVertical
    } else if v >= b {
        HitRegion::EdgeVertical
    } else {
        HitRegion::Inside
    }
}

/// The cursor glyph shown for a hit region.
pub fn region_cursor(region: HitRegion) -> (r: CursorType)
    ensures
        r == match region {
            HitRegion::CornerLeft => CursorType::Resize(ResizeType::MixedLeft),
            HitRegion::CornerRight => CursorType::Resize(ResizeType::MixedRight),
            HitRegion::EdgeHorizontal => CursorType::Resize(ResizeType::Horizontal),
            HitRegion::EdgeVertical => CursorType::Resize(ResizeType::Vertical),
            HitRegion::Inside => CursorType::Point,
        },
{
    match region {
        HitRegion::CornerLeft => CursorType::Resize(ResizeType::MixedLeft),
        HitRegion::CornerRight => CursorType::Resize(ResizeType::MixedRight),
        HitRegion::EdgeHorizontal => CursorType::Resize(ResizeType::Horizontal),
        HitRegion::EdgeVertical => CursorType::Resize(ResizeType::Vertical),
        HitRegion::Inside => CursorType::Point,
    }
}

/// The aspect ratio a resize click asks for: a left click on the side
/// margins widens and on the top and bottom margins narrows, a right click
/// does the opposite, and a right click wins when both are down; corner and
/// content hits change nothing.
pub fn aspect_step(region: HitRegion, left_clicked: bool, right_clicked: bool, ratio_fx: i64) -> (r:
    Option<i64>)
    requires
        0 <= ratio_fx <= RATIO_FX_MAX,
    ensures
        r == match region {
            HitRegion::EdgeHorizontal => {
                if right_clicked {
                    Some((ratio_fx - ASPECT_STEP_FX) as i64)
                } else if left_clicked {
                    Some((ratio_fx + ASPECT_STEP_FX) as i64)
                } else {
                    None::<i64>
                }
            }
            HitRegion::EdgeVertical => {
                if right_clicked {
                    Some((ratio_fx + ASPECT_STEP_FX) as i64)
                } else if left_clicked {
                    Some((ratio_fx - ASPECT_STEP_FX) as i64)
                } else {
                    None::<i64>
                }
            }
            _ => None::<i64>,
        },
{
    match region {
        HitRegion::EdgeHorizontal => {
            if right_clicked {
                Some(ratio_fx - ASPECT_STEP_FX)
            } else if left_clicked {
                Some(ratio_fx + ASPECT_STEP_FX)
            } else {
                None
            }
        }
        HitRegion::EdgeVertical => {
            if right_clicked {
                Some(ratio_fx + ASPECT_STEP_FX)
            } else if left_clicked {
                Some(ratio_fx - ASPECT_STEP_FX)
            } else {
                None
            }
        }
        _ => None,
    }
}

/// The pixel inside a window's real rectangle that a quad hit lands on:
/// each hit fraction applied to the window's pixel extent.
pub fn hit_pixel(u: i64, v: i64, size: UVec2) -> (r: UVec2)
    requires
        0 <= u <= SCALE,
        0 <= v <= SCALE,
        size.x <= PIXEL_MAX,
        size.y <= PIXEL_MAX,
    ensures
        r.x == u * size.x / (SCALE as int),
        r.y == v * size.y / (SCALE as int),
        r.x <= size.x,
        r.y <= size.y,
{
    proof {
        lemma_hit_pixel_bounds(u as int, size.x as int);
        lemma_hit_pixel_bounds(v as int, size.y as int);
    }
    let x: i64 = u * (size.x as i64) / SCALE;
    let y: i64 = v * (size.y as i64) / SCALE;
    UVec2 { x: x as u32, y: y as u32 }
}

/// A fraction of the scale applied to a pixel extent stays within it.
proof fn lemma_hit_pixel_bounds(f: int, c: int)
    requires
        0 <= f <= SCALE,
        0 <= c,
    ensures
        0 <= f * c / (SCALE as int) <= c,
{
    vstd::arithmetic::mul::lemma_mul_nonnegative(f, c);
    vstd::arithmetic::div_mod::lemma_div_pos_is_pos(f * c, SCALE as int);
    vstd::arithmetic::mul::lemma_mul_inequality(f, SCALE as int, c);
    vstd::arithmetic::div_mod::lemma_div_is_ordered(f * c, (SCALE as int) * c, SCALE as int);
    vstd::arithmetic::div_mod::lemma_div_by_multiple(c, SCALE as int);
}

/// The orientation a dragged window takes: the look-at rotation computed
/// outside, with its tilt components zeroed while the cursor is above the
/// mode threshold so dragged windows never flip over near the dome's top.
pub fn face_user_orientation(look: QuatFx, cursor_y: i64) -> (r: QuatFx)
    ensures
        cursor_y > CURSOR_MODE_Y_FX ==> r == (QuatFx { x: 0, z: 0, ..look }),
        cursor_y <= CURSOR_MODE_Y_FX ==> r == look,
{
    if cursor_y > CURSOR_MODE_Y_FX {
        QuatFx { x: 0, y: look.y, z: 0, w: look.w }
    } else {
        look
    }
}

/// Replacing one window with a well-formed window of the same handle and
/// depth keeps the set's well-formedness.
proof fn lemma_update_keeps_uniqueness(ws: Seq<VWindow>, fs: Seq<VWindow>, i: int)
    requires
        0 <= i < ws.len(),
        fs.len() == ws.len(),
        fs[i].wf(),
        fs[i].hwnd == ws[i].hwnd,
        fs[i].z_depth == ws[i].z_depth,
        forall|j: int| 0 <= j < ws.len() && j != i ==> #[trigger] fs[j] == ws[j],
        forall|j: int| 0 <= j < ws.len() ==> (#[trigger] ws[j]).wf(),
        forall|j: int, k: int|
            0 <= j < ws.len() && 0 <= k < ws.len() && j != k ==> (#[trigger] ws[j]).hwnd
                != (#[trigger] ws[k]).hwnd,
        forall|j: int, k: int|
            0 <= j < ws.len() && 0 <= k < ws.len() && j != k ==> (#[trigger] ws[j]).z_depth
                != (#[trigger] ws[k]).z_depth,
    ensures
        forall|j: int| 0 <= j < fs.len() ==> (#[trigger] fs[j]).wf(),
        forall|j: int, k: int|
            0 <= j < fs.len() && 0 <= k < fs.len() && j != k ==> (#[trigger] fs[j]).hwnd
                != (#[trigger] fs[k]).hwnd,
        forall|j: int, k: int|
            0 <= j < fs.len() && 0 <= k < fs.len() && j != k ==> (#[trigger] fs[j]).z_depth
                != (#[trigger] fs[k]).z_depth,
{
    assert forall|j: int| 0 <= j < fs.len() implies (#[trigger] fs[j]).wf() by {
        if j != i {
            assert(fs[j] == ws[j]);
        }
    }
    assert forall|j: int, k: int|
        0 <= j < fs.len() && 0 <= k < fs.len() && j != k implies (#[trigger] fs[j]).hwnd
        != (#[trigger] fs[k]).hwnd by {
        assert(ws[j].hwnd != ws[k].hwnd);
        if j != i {
            assert(fs[j] == ws[j]);
        }
        if k != i {
            assert(fs[k] == ws[k]);
        }
    }
    assert forall|j: int, k: int|
        0 <= j < fs.len() && 0 <= k < fs.len() && j != k implies (#[trigger] fs[j]).z_depth
        != (#[trigger] fs[k]).z_depth by {
        assert(ws[j].z_depth != ws[k].z_depth);
        if j != i {
            assert(fs[j] == ws[j]);
        }
        if k != i {
            assert(fs[k] == ws[k]);
        }
    }
}

/// Whether a display is the virtual monitor, by its distinctive width.
pub open spec fn spec_monitor_matches(rect: Rect) -> bool {
    rect.right - rect.left == MONITOR_WIDTH
}

/// Picks the virtual monitor out of the enumerated displays: the last one
/// whose width matches, or `None` when none does — a fatal setup failure
/// for the caller.
pub fn pick_monitor(displays: &Vec<(i64, Rect)>) -> (r: Option<(i64, Rect)>)
    ensures
        r is Some <==> exists|i: int|
            0 <= i < displays@.len() && spec_monitor_matches((#[trigger] displays@[i]).1),
        r matches Some(d) ==> exists|i: int|
            0 <= i < displays@.len() && #[trigger] displays@[i] == d && spec_monitor_matches(d.1)
                && forall|j: int|
                i < j < displays@.len() ==> !spec_monitor_matches((#[trigger] displays@[j]).1),
{
    let mut found: Option<(i64, Rect)> = None;
    let ghost mut found_at: int = 0;
    let n = displays.len();
    let mut idx: usize = 0;
    while idx < n
        invariant
            n == displays@.len(),
            idx <= n,
            found is None ==> forall|i: int|
                0 <= i < idx ==> !spec_monitor_matches((#[trigger] displays@[i]).1),
            found matches Some(d) ==> 0 <= found_at < idx && displays@[found_at] == d
                && spec_monitor_matches(d.1) && forall|j: int|
                found_at < j < idx ==> !spec_monitor_matches((#[trigger] displays@[j]).1),
        decreases n - idx,
    {
        let (handle, rect) = displays[idx];
        let width: i64 = rect.right as i64 - rect.left as i64;
        if width == MONITOR_WIDTH as i64 {
            found = Some((handle, rect));
            proof {
                found_at = idx as int;
            }
        }
        idx = idx + 1;
    }
    found
}

/// Whether `needle` occurs as a contiguous run of characters in `hay`,
/// starting at position `i`.
pub open spec fn seq_contains_at(hay: Seq<char>, needle: Seq<char>, i: int) -> bool {
    &&& 0 <= i
    &&& i + needle.len() <= hay.len()
    &&& forall|j: int| 0 <= j < needle.len() ==> hay[i + j] == needle[j]
}

/// Whether `needle` occurs anywhere in `hay`.
pub open spec fn seq_contains(hay: Seq<char>, needle: Seq<char>) -> bool {
    exists|i: int| seq_contains_at(hay, needle, i)
}

/// Substring search over the characters of two texts.
pub fn str_contains(hay: &str, needle: &str) -> (r: bool)
    ensures
        r == seq_contains(hay@, needle@),
{
    let hay_len = hay.unicode_len();
    let needle_len = needle.unicode_len();
    if needle_len == 0 {
        proof {
            assert(seq_contains_at(hay@, needle@, 0));
        }
        return true;
    }
    if needle_len > hay_len {
        return false;
    }
    let mut start: usize = 0;
    while start <= hay_len - needle_len
        invariant
            hay_len == hay@.len(),
            needle_len == needle@.len(),
            0 < needle_len <= hay_len,
            start <= hay_len - needle_len + 1,
            forall|i: int| 0 <= i < start ==> !seq_contains_at(hay@, needle@, i),
        decreases hay_len - needle_len - start + 1,
    {
        let mut j: usize = 0;
        let mut mismatch = false;
        while j < needle_len && !mismatch
            invariant
                hay_len == hay@.len(),
                needle_len == needle@.len(),
                start + needle_len <= hay_len,
                j <= needle_len,
                !mismatch ==> forall|k: int| 0 <= k < j ==> hay@[start + k] == needle@[k],
                mismatch ==> !seq_contains_at(hay@, needle@, start as int),
            decreases needle_len - j + (if mismatch {
                0int
            } else {
                1int
            }),
        {
            if hay.get_char(start + j) != needle.get_char(j) {
                mismatch = true;
            } else {
                j = j + 1;
            }
        }
        if !mismatch {
            proof {
                assert(seq_contains_at(hay@, needle@, start as int));
            }
            return true;
        }
        start = start + 1;
    }
    proof {
        assert forall|i: int| !seq_contains_at(hay@, needle@, i) by {
            if 0 <= i && i + needle@.len() <= hay@.len() {
                assert(i < start);
            }
        }
    }
    false
}

/// Whether a window's title marks it as the manager's own surface, which
/// must never be tracked or captured.
pub fn is_invalid_window(window_title: &str) -> (r: bool)
    ensures
        r == seq_contains(window_title@, "Cloudcafe XR Desktop"@),
{
    str_contains(window_title, "Cloudcafe XR Desktop")
}

/// Never both a grabbed and an OS-captured window: dragging and routing
/// input into real content are mutually exclusive modes, in every
/// well-formed manager state.
pub proof fn lemma_grab_capture_exclusive(d: VDesktop)
    requires
        d.wf(),
    ensures
        !(d.grabbed_window is Some && d.captured_window is Some),
{
}

} // verus!
