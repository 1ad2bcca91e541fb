//! Mapping between a point on a flat virtual window and a pixel inside the
//! real on-screen window it mirrors.
//!
//! A window couples a virtual rectangle (fixed-point position and size, the
//! y axis growing upward) with a real rectangle (pixel position and size, the
//! y axis growing downward).  A virtual point inside the rectangle maps to
//! the pixel at the same relative offset, and a pixel maps back to the
//! virtual point at the same relative offset.  Each direction truncates
//! exactly once, so a round trip returns a point within one pixel's worth
//! of the window's extent; `lemma_round_trip` states the bound exactly.

use vstd::prelude::*;
use vstd::arithmetic::div_mod::lemma_div_by_multiple;
use vstd::arithmetic::div_mod::lemma_div_is_ordered;
use vstd::arithmetic::div_mod::lemma_div_nonincreasing;
use vstd::arithmetic::div_mod::lemma_div_pos_is_pos;
use vstd::arithmetic::div_mod::lemma_fundamental_div_mod;
use vstd::arithmetic::div_mod::lemma_mod_bound;
use vstd::arithmetic::mul::lemma_mul_inequality;
use vstd::arithmetic::mul::lemma_mul_is_commutative;
use vstd::arithmetic::mul::lemma_mul_nonnegative;
use vstd::arithmetic::mul::lemma_mul_strictly_positive;
use vstd::arithmetic::mul::lemma_mul_unary_negation;
use vstd::arithmetic::mul::lemma_mul_upper_bound;
use crate::values::UVec2;
use crate::values::Vec2Fx;
use crate::values::Vec3Fx;
use crate::values::div_trunc;

verus! {

/// A nonnegative value divided by a positive one stays between zero and
/// itself.
proof fn lemma_div_stays_bounded(a: int, d: int)
    requires
        0 <= a,
        0 < d,
    ensures
        0 <= a / d <= a,
{
    lemma_div_pos_is_pos(a, d);
    lemma_div_nonincreasing(a, d);
}

/// Scaling `a <= vs` parts of a `vs`-unit extent to `is` pixels lands
/// between zero and `is`.
proof fn lemma_scale_to_pixels(a: int, vs: int, is: int)
    requires
        0 <= a <= vs,
        0 < vs,
        0 < is,
    ensures
        0 <= a * is / vs <= is,
{
    lemma_mul_nonnegative(a, is);
    lemma_div_pos_is_pos(a * is, vs);
    lemma_mul_inequality(a, vs, is);
    lemma_mul_is_commutative(vs, is);
    lemma_div_is_ordered(a * is, is * vs, vs);
    lemma_div_by_multiple(is, vs);
}

/// Largest fixed-point extent a virtual window may have.
pub const SIZE_FX_MAX: i64 = 1_000_000;

/// Largest pixel coordinate or extent a real window may have.
pub const PIXEL_MAX: u32 = 1_000_000;

/// Largest fixed-point coordinate a virtual point or window corner may have,
/// in absolute value.
pub const COORD_FX_MAX: i64 = 1_000_000_000;

/// Relates the sign-split executable computation of the pixel-to-virtual
/// offset to its truncating-division specification.
proof fn lemma_off_matches_trunc(rel: int, vs: int, is: int, v_mag: int, off: int)
    requires
        0 < vs,
        0 < is,
        v_mag == if rel >= 0 {
            rel * vs / is
        } else {
            (-rel) * vs / is
        },
        off == if rel >= 0 {
            v_mag
        } else {
            -v_mag
        },
    ensures
        off == div_trunc(rel * vs, is),
{
    if rel >= 0 {
        lemma_mul_nonnegative(rel, vs);
    } else {
        lemma_mul_unary_negation(rel, vs);
        lemma_mul_strictly_positive(-rel, vs);
        assert(rel * vs < 0);
        assert(div_trunc(rel * vs, is) == -((-(rel * vs)) / is));
        assert((-rel) * vs == -(rel * vs));
    }
}

/// One axis of a round trip: turning `a` parts of a `vs`-unit virtual
/// extent into one of `is` pixels and back again never gains ground, and
/// the loss, scaled by the pixel count, stays below one pixel's worth of
/// the extent plus one pixel.
proof fn lemma_axis_round_trip(a: int, vs: int, is: int)
    requires
        0 <= a <= vs,
        0 < vs,
        0 < is,
    ensures
        ({
            let px = a * is / vs;
            let b = px * vs / is;
            &&& 0 <= px <= is
            &&& b <= a
            &&& (a - b) * is < vs + is
        }),
{
    let px = a * is / vs;
    let b = px * vs / is;
    let r1 = (a * is) % vs;
    let r2 = (px * vs) % is;
    lemma_scale_to_pixels(a, vs, is);
    lemma_mul_nonnegative(a, is);
    lemma_fundamental_div_mod(a * is, vs);
    lemma_mod_bound(a * is, vs);
    lemma_mul_nonnegative(px, vs);
    lemma_fundamental_div_mod(px * vs, is);
    lemma_mod_bound(px * vs, is);
    lemma_div_pos_is_pos(px * vs, is);
    assert((a - b) * is == r1 + r2) by (nonlinear_arith)
        requires
            a * is == vs * px + r1,
            px * vs == is * b + r2,
    ;
    assert(b <= a) by (nonlinear_arith)
        requires
            (a - b) * is >= 0,
            0 < is,
    ;
}

/// A window's mapping data: where it sits on the virtual surface and where
/// its real counterpart sits on the desktop.
#[derive(Clone, Copy, Debug, PartialEq, Eq, Structural)]
pub struct TestWindow {
    /// Centre-anchored virtual position of the window (fixed-point).
    pub virtual_position: Vec3Fx,
    /// Virtual width and height (fixed-point, both positive).
    pub virtual_size: Vec2Fx,
    /// Pixel width and height of the real window (both positive).
    pub internal_size: UVec2,
    /// Pixel position of the real window's top-left corner.
    pub internal_position: UVec2,
}

impl TestWindow {
    /// The bounds under which every mapping below is free of overflow.
    pub open spec fn wf(self) -> bool {
        &&& 0 < self.virtual_size.x <= SIZE_FX_MAX
        &&& 0 < self.virtual_size.y <= SIZE_FX_MAX
        &&& 0 < self.internal_size.x <= PIXEL_MAX
        &&& 0 < self.internal_size.y <= PIXEL_MAX
        &&& self.internal_position.x <= PIXEL_MAX
        &&& self.internal_position.y <= PIXEL_MAX
        &&& -COORD_FX_MAX <= self.virtual_position.x <= COORD_FX_MAX
        &&& -COORD_FX_MAX <= self.virtual_position.y <= COORD_FX_MAX
    }

    /// Whether a virtual point lies inside the window: to the right of and
    /// below the window's anchor, within its extent.
    pub open spec fn holds_point(self, m: Vec3Fx) -> bool {
        &&& 0 <= m.x - self.virtual_position.x <= self.virtual_size.x
        &&& 0 <= self.virtual_position.y - m.y <= self.virtual_size.y
    }

    /// Horizontal pixel that a virtual point maps to.
    pub open spec fn spec_to_px_x(self, m: Vec3Fx) -> int {
        (m.x - self.virtual_position.x) * (self.internal_size.x as int) / (
        self.virtual_size.x as int) + self.internal_position.x
    }

    /// Vertical pixel that a virtual point maps to (the virtual y axis grows
    /// upward, the pixel y axis downward).
    pub open spec fn spec_to_px_y(self, m: Vec3Fx) -> int {
        (self.virtual_position.y - m.y) * (self.internal_size.y as int) / (
        self.virtual_size.y as int) + self.internal_position.y
    }

    /// Horizontal virtual coordinate that a pixel maps back to.
    pub open spec fn spec_to_virtual_x(self, pos: UVec2) -> int {
        self.virtual_position.x + div_trunc(
            (pos.x - self.internal_position.x) * self.virtual_size.x,
            self.internal_size.x as int,
        )
    }

    /// Vertical virtual coordinate that a pixel maps back to.
    pub open spec fn spec_to_virtual_y(self, pos: UVec2) -> int {
        self.virtual_position.y - div_trunc(
            (pos.y - self.internal_position.y) * self.virtual_size.y,
            self.internal_size.y as int,
        )
    }

    /// Maps a virtual point to the pixel at the same relative offset inside
    /// the real window, truncating once; `None` exactly when the point lies
    /// outside the window.
    pub fn virtual_to_internal(&self, mouse_pos: Vec3Fx) -> (r: Option<UVec2>)
        requires
            self.wf(),
            -COORD_FX_MAX <= mouse_pos.x <= COORD_FX_MAX,
            -COORD_FX_MAX <= mouse_pos.y <= COORD_FX_MAX,
        ensures
            r is Some <==> self.holds_point(mouse_pos),
            r is Some ==> r->0.x == self.spec_to_px_x(mouse_pos),
            r is Some ==> r->0.y == self.spec_to_px_y(mouse_pos),
    {
        let dx: i64 = mouse_pos.x - self.virtual_position.x;
        let dy: i64 = self.virtual_position.y - mouse_pos.y;
        if dx < 0 || dx > self.virtual_size.x || dy < 0 || dy > self.virtual_size.y {
            return None;
        }
        proof {
            lemma_mul_nonnegative(dx as int, self.internal_size.x as int);
            lemma_mul_nonnegative(dy as int, self.internal_size.y as int);
            lemma_mul_upper_bound(
                dx as int,
                SIZE_FX_MAX as int,
                self.internal_size.x as int,
                PIXEL_MAX as int,
            );
            lemma_mul_upper_bound(
                dy as int,
                SIZE_FX_MAX as int,
                self.internal_size.y as int,
                PIXEL_MAX as int,
            );
            lemma_scale_to_pixels(dx as int, self.virtual_size.x as int, self.internal_size.x as int);
            lemma_scale_to_pixels(dy as int, self.virtual_size.y as int, self.internal_size.y as int);
        }
        let px: i64 = dx * (self.internal_size.x as i64) / self.virtual_size.x;
        let py: i64 = dy * (self.internal_size.y as i64) / self.virtual_size.y;
        Some(UVec2 {
            x: px as u32 + self.internal_position.x,
            y: py as u32 + self.internal_position.y,
        })
    }

    /// Maps a pixel back to the virtual point at the same relative offset,
    /// truncating once; the pixel may lie outside the real window, in which
    /// case the result lies outside the virtual one.  The accepted range
    /// covers every pixel the forward mapping can produce, which reaches up
    /// to the window's position plus its extent.
    pub fn internal_to_virtual(&self, mouse_pos: UVec2) -> (r: Vec3Fx)
        requires
            self.wf(),
            mouse_pos.x <= 2 * PIXEL_MAX,
            mouse_pos.y <= 2 * PIXEL_MAX,
        ensures
            r.x == self.spec_to_virtual_x(mouse_pos),
            r.y == self.spec_to_virtual_y(mouse_pos),
            r.z == self.virtual_position.z,
    {
        let rel_x: i64 = mouse_pos.x as i64 - self.internal_position.x as i64;
        let rel_y: i64 = mouse_pos.y as i64 - self.internal_position.y as i64;
        let mag_x: i64 = if rel_x >= 0 { rel_x } else { -rel_x };
        let mag_y: i64 = if rel_y >= 0 { rel_y } else { -rel_y };
        proof {
            lemma_mul_nonnegative(mag_x as int, self.virtual_size.x as int);
            lemma_mul_nonnegative(mag_y as int, self.virtual_size.y as int);
            lemma_mul_upper_bound(mag_x as int, 3_000_000, self.virtual_size.x as int, SIZE_FX_MAX as int);
            lemma_mul_upper_bound(mag_y as int, 3_000_000, self.virtual_size.y as int, SIZE_FX_MAX as int);
        }
        let v_x: i64 = mag_x * self.virtual_size.x / (self.internal_size.x as i64);
        let v_y: i64 = mag_y * self.virtual_size.y / (self.internal_size.y as i64);
        proof {
            lemma_div_stays_bounded((mag_x * self.virtual_size.x) as int, self.internal_size.x as int);
            lemma_div_stays_bounded((mag_y * self.virtual_size.y) as int, self.internal_size.y as int);
        }
        let off_x: i64 = if rel_x >= 0 { v_x } else { -v_x };
        let off_y: i64 = if rel_y >= 0 { v_y } else { -v_y };
        proof {
            lemma_off_matches_trunc(
                rel_x as int,
                self.virtual_size.x as int,
                self.internal_size.x as int,
                v_x as int,
                off_x as int,
            );
            lemma_off_matches_trunc(
                rel_y as int,
                self.virtual_size.y as int,
                self.internal_size.y as int,
                v_y as int,
                off_y as int,
            );
        }
        Vec3Fx {
            x: self.virtual_position.x + off_x,
            y: self.virtual_position.y - off_y,
            z: self.virtual_position.z,
        }
    }
}

/// Round trip of the window mapping: for any point the window holds,
/// mapping it to a pixel and the pixel back to the surface returns a point
/// that has drifted only toward the window's anchor, and per axis the
/// drift, scaled by the pixel count, stays below one pixel's worth of the
/// window's extent plus one pixel.
pub proof fn lemma_round_trip(w: TestWindow, m: Vec3Fx)
    requires
        w.wf(),
        w.holds_point(m),
    ensures
        ({
            let p = (UVec2 { x: w.spec_to_px_x(m) as u32, y: w.spec_to_px_y(m) as u32 });
            let bx = w.spec_to_virtual_x(p);
            let by = w.spec_to_virtual_y(p);
            &&& w.spec_to_px_x(m) == w.spec_to_px_x(m) as u32
            &&& w.spec_to_px_y(m) == w.spec_to_px_y(m) as u32
            &&& bx <= m.x
            &&& by >= m.y
            &&& (m.x - bx) * w.internal_size.x < w.virtual_size.x + w.internal_size.x
            &&& (by - m.y) * w.internal_size.y < w.virtual_size.y + w.internal_size.y
        }),
{
    let ax = m.x - w.virtual_position.x;
    let ay = w.virtual_position.y - m.y;
    let vsx = w.virtual_size.x as int;
    let vsy = w.virtual_size.y as int;
    let isx = w.internal_size.x as int;
    let isy = w.internal_size.y as int;
    let pxx = ax * isx / vsx;
    let pxy = ay * isy / vsy;
    lemma_scale_to_pixels(ax, vsx, isx);
    lemma_scale_to_pixels(ay, vsy, isy);
    let p = (UVec2 { x: w.spec_to_px_x(m) as u32, y: w.spec_to_px_y(m) as u32 });
    assert(p.x == pxx + w.internal_position.x);
    assert(p.y == pxy + w.internal_position.y);
    lemma_mul_nonnegative(pxx, vsx);
    lemma_mul_nonnegative(pxy, vsy);
    assert(div_trunc(pxx * vsx, isx) == pxx * vsx / isx);
    assert(div_trunc(pxy * vsy, isy) == pxy * vsy / isy);
    assert(w.spec_to_virtual_x(p) == w.virtual_position.x + pxx * vsx / isx);
    assert(w.spec_to_virtual_y(p) == w.virtual_position.y - pxy * vsy / isy);
    lemma_axis_round_trip(ax, vsx, isx);
    lemma_axis_round_trip(ay, vsy, isy);
}

} // verus!
