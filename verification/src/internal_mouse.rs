//! Proxy-side logic for the OS cursor: per-frame deltas and the optional
//! lock that pins the cursor to a fixed point.
//!
//! The caller reads the real cursor position once per frame and hands it to
//! `tick`; the proxy computes the delta against the last baseline and, while
//! locked, asks the caller to snap the cursor back to the lock point so that
//! looking around keeps producing relative movement instead of drifting into
//! a screen edge.

use vstd::prelude::*;
use crate::internal_window::PIXEL_POS_MAX;
use crate::values::IVec2;

verus! {

/// The OS cursor proxy: cached position, last delta, and the lock state.
#[derive(Clone, Copy, Debug, PartialEq, Eq, Structural)]
pub struct IMouse {
    /// While set, every `tick` re-pins the cursor to the lock position.
    pub lock_cursor: bool,
    pub pos: IVec2,
    pub delta_pos: IVec2,
    pub cursor_lock_position: IVec2,
}

/// A cursor position within the coordinate range the proxies accept.
pub open spec fn cursor_in_range(p: IVec2) -> bool {
    &&& -PIXEL_POS_MAX <= p.x <= PIXEL_POS_MAX
    &&& -PIXEL_POS_MAX <= p.y <= PIXEL_POS_MAX
}

impl IMouse {
    pub open spec fn wf(self) -> bool {
        &&& cursor_in_range(self.pos)
        &&& cursor_in_range(self.cursor_lock_position)
    }

    /// Builds the proxy around the cursor's current position; the lock
    /// starts released and the first delta is zero.
    pub fn new(cursor_lock_position: IVec2, current_pos: IVec2) -> (r: IMouse)
        requires
            cursor_in_range(cursor_lock_position),
            cursor_in_range(current_pos),
        ensures
            r.wf(),
            !r.lock_cursor,
            r.pos == current_pos,
            r.delta_pos == (IVec2 { x: 0, y: 0 }),
            r.cursor_lock_position == cursor_lock_position,
    {
        IMouse {
            lock_cursor: false,
            pos: current_pos,
            delta_pos: IVec2 { x: 0, y: 0 },
            cursor_lock_position,
        }
    }

    /// Advances one frame: the delta is the cursor's movement since the
    /// last baseline, and while locked the baseline snaps back to the lock
    /// point, which the returned command asks the caller to impose on the
    /// real cursor.
    pub fn tick(&mut self, current_pos: IVec2) -> (r: Option<IVec2>)
        requires
            old(self).wf(),
            cursor_in_range(current_pos),
        ensures
            final(self).wf(),
            final(self).delta_pos.x == current_pos.x - old(self).pos.x,
            final(self).delta_pos.y == current_pos.y - old(self).pos.y,
            final(self).lock_cursor == old(self).lock_cursor,
            final(self).cursor_lock_position == old(self).cursor_lock_position,
            old(self).lock_cursor ==> final(self).pos == old(self).cursor_lock_position && r
                == Some(old(self).cursor_lock_position),
            !old(self).lock_cursor ==> final(self).pos == current_pos && r is None,
    {
        self.delta_pos = IVec2 { x: current_pos.x - self.pos.x, y: current_pos.y - self.pos.y };
        self.pos = current_pos;
        if self.lock_cursor {
            self.pos = self.cursor_lock_position;
            Some(self.cursor_lock_position)
        } else {
            None
        }
    }
}

} // verus!
