//! Proxy-side logic for one real OS window: rectangle validity, cached-size
//! change detection, aspect-ratio-constrained resizing, and the two fixed
//! "parking" positions on the capture monitor.
//!
//! The proxy itself never touches the OS: callers read the window's current
//! rectangle outside this crate and hand it in as plain values, and every
//! movement comes back out as a [`MoveCommand`] for the caller to issue.

use vstd::prelude::*;
use vstd::arithmetic::div_mod::lemma_div_is_ordered;
use vstd::arithmetic::div_mod::lemma_div_by_multiple;
use vstd::arithmetic::div_mod::lemma_div_pos_is_pos;
use vstd::arithmetic::div_mod::lemma_fundamental_div_mod;
use vstd::arithmetic::div_mod::lemma_mod_bound;
use vstd::arithmetic::mul::lemma_mul_basics;
use vstd::arithmetic::mul::lemma_mul_is_commutative;
use vstd::arithmetic::mul::lemma_mul_is_distributive_add;
use vstd::arithmetic::mul::lemma_mul_left_inequality;
use vstd::arithmetic::mul::lemma_mul_nonnegative;
use vstd::arithmetic::mul::lemma_mul_upper_bound;
use crate::mapping::PIXEL_MAX;
use crate::values::IVec2;
use crate::values::UVec2;
use crate::values::SCALE;

verus! {

/// Largest screen coordinate the proxies accept, in absolute value.
pub const PIXEL_POS_MAX: i32 = 10_000_000;

/// Largest fixed-point aspect ratio accepted (ten thousand to one), far
/// beyond any real window while keeping the resize arithmetic in range.
pub const RATIO_FX_MAX: i64 = 100_000_000;

/// Distance kept between a parked window and the monitor's edges.
pub const PARK_PADDING: i32 = 40;

/// A screen rectangle as the OS reports it.
#[derive(Clone, Copy, Debug, PartialEq, Eq, Structural)]
pub struct Rect {
    pub left: i32,
    pub top: i32,
    pub right: i32,
    pub bottom: i32,
}

/// Construction fails when the window's rectangle is inverted.
#[derive(Clone, Copy, Debug, PartialEq, Eq, Structural)]
pub enum RectError {
    NegativeSize,
}

/// A window move for the caller to issue to the OS: place `hwnd` at `pos`
/// with extent `size`.
#[derive(Clone, Copy, Debug, PartialEq, Eq, Structural)]
pub struct MoveCommand {
    pub hwnd: i64,
    pub pos: IVec2,
    pub size: UVec2,
}

impl Rect {
    /// All coordinates small enough that widths and parked positions fit
    /// their machine types.
    pub open spec fn bounded(self) -> bool {
        &&& -PIXEL_POS_MAX <= self.left <= PIXEL_POS_MAX
        &&& -PIXEL_POS_MAX <= self.top <= PIXEL_POS_MAX
        &&& -PIXEL_POS_MAX <= self.right <= PIXEL_POS_MAX
        &&& -PIXEL_POS_MAX <= self.bottom <= PIXEL_POS_MAX
    }

    /// A rectangle is degenerate when its width or height is negative, a
    /// transient OS state during some window transitions.
    pub open spec fn valid(self) -> bool {
        self.left <= self.right && self.top <= self.bottom
    }

    pub open spec fn spec_width(self) -> int {
        self.right - self.left
    }

    pub open spec fn spec_height(self) -> int {
        self.bottom - self.top
    }
}

/// Width and height of a reported rectangle, or `None` exactly when the
/// rectangle is inverted.
pub fn rect_size(rect: Rect) -> (r: Option<UVec2>)
    requires
        rect.bounded(),
    ensures
        r is Some <==> rect.valid(),
        r is Some ==> r->0.x == rect.spec_width() && r->0.y == rect.spec_height(),
{
    let w: i64 = rect.right as i64 - rect.left as i64;
    let h: i64 = rect.bottom as i64 - rect.top as i64;
    if w < 0 || h < 0 {
        return None;
    }
    Some(UVec2 { x: w as u32, y: h as u32 })
}

/// Pixels taken off the right edge of a window's reported frame rectangle
/// before it is used as a capture crop, hiding frame artifacts.
pub const FRAME_INSET_RIGHT: i32 = 21;

/// Pixels the top edge of a window's reported frame rectangle is raised by
/// before it is used as a capture crop.
pub const FRAME_INSET_TOP: i32 = 10;

/// The fixed inset applied to the frame rectangle the compositor reports
/// before the focused window's capture crop is computed from it.
pub fn real_rect_inset(rect: Rect) -> (r: Rect)
    requires
        rect.bounded(),
    ensures
        r.left == rect.left,
        r.top == rect.top - FRAME_INSET_TOP,
        r.right == rect.right - FRAME_INSET_RIGHT,
        r.bottom == rect.bottom,
{
    Rect {
        left: rect.left,
        top: rect.top - FRAME_INSET_TOP,
        right: rect.right - FRAME_INSET_RIGHT,
        bottom: rect.bottom,
    }
}

/// Top-left corner of a reported rectangle as unsigned screen coordinates:
/// a left edge less than ten pixels off-screen snaps to zero, anything
/// further off-screen is unusable.
pub fn normalize_position(rect: Rect) -> (r: Option<UVec2>)
    requires
        rect.bounded(),
    ensures
        ({
            let left = if -10 < rect.left < 0 {
                0int
            } else {
                rect.left as int
            };
            if left < 0 || rect.top < 0 {
                r is None
            } else {
                r == Some(UVec2 { x: left as u32, y: rect.top as u32 })
            }
        }),
{
    let left: i32 = if rect.left < 0 && rect.left > -10 {
        0
    } else {
        rect.left
    };
    if left < 0 || rect.top < 0 {
        return None;
    }
    Some(UVec2 { x: left as u32, y: rect.top as u32 })
}

/// The monitor that parked windows are captured from.
#[derive(Clone, Copy, Debug, PartialEq, Eq, Structural)]
pub struct FakeMonitor {
    pub handle: i64,
    pub pos: IVec2,
    pub size: UVec2,
}

impl FakeMonitor {
    /// What construction guarantees of every monitor value.
    pub open spec fn wf(self) -> bool {
        &&& -PIXEL_POS_MAX <= self.pos.x <= PIXEL_POS_MAX
        &&& -PIXEL_POS_MAX <= self.pos.y <= PIXEL_POS_MAX
        &&& self.size.x <= PIXEL_MAX
        &&& self.size.y <= PIXEL_MAX
    }

    /// Builds the monitor from its reported rectangle; fails exactly when
    /// the rectangle is inverted.
    pub fn new(handle: i64, rect: Rect) -> (r: Result<FakeMonitor, RectError>)
        requires
            rect.bounded(),
            rect.spec_width() <= PIXEL_MAX,
            rect.spec_height() <= PIXEL_MAX,
        ensures
            r is Ok <==> rect.valid(),
            r matches Ok(m) ==> m.wf() && m.handle == handle && m.pos.x == rect.left
                && m.pos.y == rect.top && m.size.x == rect.spec_width()
                && m.size.y == rect.spec_height(),
    {
        match rect_size(rect) {
            None => Err(RectError::NegativeSize),
            Some(size) => Ok(FakeMonitor { handle, pos: IVec2 { x: rect.left, y: rect.top }, size }),
        }
    }
}

/// The proxy for one real window: its handle, the monitor it parks on, and
/// the last size this side observed.
#[derive(Clone, Copy, Debug, PartialEq, Eq, Structural)]
pub struct IWindow {
    pub hwnd: i64,
    pub fake_monitor: FakeMonitor,
    pub stored_size: UVec2,
    pub padding: i32,
}

impl IWindow {
    pub open spec fn wf(self) -> bool {
        &&& self.fake_monitor.wf()
        &&& self.padding == PARK_PADDING
    }

    /// Builds the proxy from the window's current rectangle; fails exactly
    /// when that rectangle is inverted, and the failure is permanent for
    /// the handle.
    pub fn new(hwnd: i64, fake_monitor: FakeMonitor, rect: Rect) -> (r: Result<
        IWindow,
        RectError,
    >)
        requires
            fake_monitor.wf(),
            rect.bounded(),
        ensures
            r is Ok <==> rect.valid(),
            r matches Ok(w) ==> w.wf() && w.hwnd == hwnd && w.fake_monitor == fake_monitor
                && w.stored_size.x == rect.spec_width() && w.stored_size.y == rect.spec_height(),
    {
        match rect_size(rect) {
            None => Err(RectError::NegativeSize),
            Some(size) => Ok(
                IWindow { hwnd, fake_monitor, stored_size: size, padding: PARK_PADDING },
            ),
        }
    }

    /// Whether the window's reported size differs from the one last stored;
    /// an unreadable rectangle counts as changed.
    pub fn size_changed(&self, current: Option<UVec2>) -> (r: bool)
        ensures
            r == !(current == Some(self.stored_size)),
    {
        match current {
            Some(size) => {
                size.x != self.stored_size.x || size.y != self.stored_size.y
            }
            None => true,
        }
    }

    /// Stores the window's reported size; fails when the rectangle was
    /// unreadable.
    pub fn update_size(&mut self, current: Option<UVec2>) -> (r: Option<()>)
        ensures
            r is Some <==> current is Some,
            current matches Some(size) ==> *final(self) == (IWindow {
                stored_size: size,
                ..*old(self)
            }),
            current is None ==> *final(self) == *old(self),
    {
        match current {
            Some(size) => {
                self.stored_size = size;
                Some(())
            }
            None => None,
        }
    }

    /// The largest size fitting the padded half-monitor box at the given
    /// aspect ratio: the width is fixed first and the height derived from
    /// it, unless that height would leave the box, in which case the height
    /// is fixed and the width derived.
    pub open spec fn spec_aspect_size(self, ratio_fx: int) -> (int, int) {
        let max_width = (self.fake_monitor.size.x - 2 * self.padding) / 2;
        let max_height = self.fake_monitor.size.y - 2 * self.padding;
        if max_width * (SCALE as int) / ratio_fx <= max_height {
            (max_width, max_width * (SCALE as int) / ratio_fx)
        } else {
            (max_height * ratio_fx / (SCALE as int), max_height)
        }
    }

    /// Computes the move that resizes the window to the monitor's padded
    /// half-box at `ratio_fx` (fixed-point width over height), keeping its
    /// current position; the chosen size always fits the box.
    pub fn set_aspect_ratio(&self, ratio_fx: i64, current_pos: IVec2) -> (r: MoveCommand)
        requires
            self.wf(),
            0 < ratio_fx <= RATIO_FX_MAX,
            self.fake_monitor.size.x > 2 * PARK_PADDING,
            self.fake_monitor.size.y > 2 * PARK_PADDING,
        ensures
            r.hwnd == self.hwnd,
            r.pos == current_pos,
            (r.size.x as int, r.size.y as int) == self.spec_aspect_size(ratio_fx as int),
            r.size.x <= (self.fake_monitor.size.x - 2 * PARK_PADDING) / 2,
            r.size.y <= self.fake_monitor.size.y - 2 * PARK_PADDING,
    {
        let max_width: i64 = (self.fake_monitor.size.x as i64 - 2 * self.padding as i64) / 2;
        let max_height: i64 = self.fake_monitor.size.y as i64 - 2 * self.padding as i64;
        let derived_height: i64 = max_width * SCALE / ratio_fx;
        proof {
            lemma_div_pos_is_pos(max_width * (SCALE as int), ratio_fx as int);
        }
        if derived_height <= max_height {
            MoveCommand {
                hwnd: self.hwnd,
                pos: current_pos,
                size: UVec2 { x: max_width as u32, y: derived_height as u32 },
            }
        } else {
            proof {
                lemma_mul_nonnegative(max_height as int, ratio_fx as int);
                lemma_mul_upper_bound(max_height as int, PIXEL_MAX as int, ratio_fx as int, RATIO_FX_MAX as int);
            }
            let derived_width: i64 = max_height * ratio_fx / SCALE;
            proof {
                lemma_div_pos_is_pos(max_height * (ratio_fx as int), SCALE as int);
                lemma_derived_width_fits(max_width as int, max_height as int, ratio_fx as int);
            }
            MoveCommand {
                hwnd: self.hwnd,
                pos: current_pos,
                size: UVec2 { x: derived_width as u32, y: max_height as u32 },
            }
        }
    }

    /// Computes the move that resizes the window in place.
    pub fn set_size(&self, size: UVec2, current_pos: IVec2) -> (r: MoveCommand)
        ensures
            r == (MoveCommand { hwnd: self.hwnd, pos: current_pos, size }),
    {
        MoveCommand { hwnd: self.hwnd, pos: current_pos, size }
    }

    /// Computes the move that repositions the window without resizing it;
    /// fails when the current rectangle is unreadable.
    pub fn set_pos(&self, pos: IVec2, current_size: Option<UVec2>) -> (r: Option<MoveCommand>)
        ensures
            r is Some <==> current_size is Some,
            current_size matches Some(size) ==> r == Some(
                MoveCommand { hwnd: self.hwnd, pos, size },
            ),
    {
        match current_size {
            Some(size) => Some(MoveCommand { hwnd: self.hwnd, pos, size }),
            None => None,
        }
    }

    /// Pixel position of the active parking spot for a window of the given
    /// width: flush against the monitor's right edge, inside the padding.
    pub open spec fn spec_active_park(self, width: int) -> (int, int) {
        (
            self.fake_monitor.pos.x - self.padding + self.fake_monitor.size.x - width,
            self.fake_monitor.pos.y + self.padding,
        )
    }

    /// Pixel position of the inactive parking spot: the monitor's top-left
    /// corner, inside the padding.
    pub open spec fn spec_inactive_park(self) -> (int, int) {
        (self.fake_monitor.pos.x + self.padding, self.fake_monitor.pos.y + self.padding)
    }

    /// Computes the move that parks the window at the active spot, where
    /// the focused window is captured; fails when the current rectangle is
    /// unreadable.
    pub fn move_to_active(&self, current_size: Option<UVec2>) -> (r: Option<MoveCommand>)
        requires
            self.wf(),
            current_size matches Some(s) ==> s.x <= PIXEL_MAX && s.y <= PIXEL_MAX,
        ensures
            r is Some <==> current_size is Some,
            current_size matches Some(size) ==> r matches Some(cmd) && cmd.hwnd == self.hwnd
                && cmd.size == size && (cmd.pos.x as int, cmd.pos.y as int)
                == self.spec_active_park(size.x as int),
    {
        match current_size {
            Some(size) => {
                let x: i64 = self.fake_monitor.pos.x as i64 - self.padding as i64
                    + self.fake_monitor.size.x as i64 - size.x as i64;
                let y: i64 = self.fake_monitor.pos.y as i64 + self.padding as i64;
                Some(
                    MoveCommand {
                        hwnd: self.hwnd,
                        pos: IVec2 { x: x as i32, y: y as i32 },
                        size,
                    },
                )
            }
            None => None,
        }
    }

    /// Computes the move that parks the window at the inactive spot, where
    /// unfocused windows sit; fails when the current rectangle is
    /// unreadable.
    pub fn move_to_inactive(&self, current_size: Option<UVec2>) -> (r: Option<MoveCommand>)
        requires
            self.wf(),
        ensures
            r is Some <==> current_size is Some,
            current_size matches Some(size) ==> r matches Some(cmd) && cmd.hwnd == self.hwnd
                && cmd.size == size && (cmd.pos.x as int, cmd.pos.y as int)
                == self.spec_inactive_park(),
    {
        match current_size {
            Some(size) => {
                let x: i64 = self.fake_monitor.pos.x as i64 + self.padding as i64;
                let y: i64 = self.fake_monitor.pos.y as i64 + self.padding as i64;
                Some(
                    MoveCommand {
                        hwnd: self.hwnd,
                        pos: IVec2 { x: x as i32, y: y as i32 },
                        size,
                    },
                )
            }
            None => None,
        }
    }
}

/// When fixing the width first would overshoot the box's height, the width
/// derived from the full height stays within the box's width.
proof fn lemma_derived_width_fits(max_width: int, max_height: int, ratio: int)
    requires
        0 <= max_width,
        0 <= max_height,
        0 < ratio,
        max_width * (SCALE as int) / ratio > max_height,
    ensures
        max_height * ratio / (SCALE as int) <= max_width,
{
    let s = SCALE as int;
    let q = max_width * s / ratio;
    lemma_fundamental_div_mod(max_width * s, ratio);
    lemma_mod_bound(max_width * s, ratio);
    assert(max_width * s >= ratio * q);
    assert(ratio * (max_height + 1) <= ratio * q) by {
        lemma_mul_left_inequality(ratio, max_height + 1, q);
    }
    assert(ratio * (max_height + 1) == ratio * max_height + ratio) by {
        lemma_mul_is_distributive_add(ratio, max_height, 1);
        lemma_mul_basics(ratio);
    }
    assert(max_height * ratio == ratio * max_height) by {
        lemma_mul_is_commutative(max_height, ratio);
    }
    assert(max_height * ratio <= max_width * s);
    lemma_div_is_ordered(max_height * ratio, max_width * s, s);
    lemma_div_by_multiple(max_width, s);
    assert(max_width * s / s == max_width);
}

} // verus!
