//! The virtual cursor on the curved surface.
//!
//! The cursor's cartesian position lives at a fixed radius from the user.
//! Above a height threshold its movement is expressed in cylindrical
//! coordinates (angle and height vary); below it, in spherical coordinates
//! (azimuth and polar angle vary), so the cursor can wrap around near the
//! bottom of the dome without a singularity.  The trigonometric conversions
//! between cartesian and the two parameterizations happen outside this
//! crate; this module holds the state, the mode decision, the angular
//! stepping with its wrap-around, the polar clamp, and the fixed offset that
//! keeps the position continuous across the mode switch.

use vstd::prelude::*;
use vstd::arithmetic::div_mod::lemma_fundamental_div_mod_converse_mod;
use vstd::arithmetic::div_mod::lemma_mod_multiples_basic;
use crate::mapping::COORD_FX_MAX;
use crate::values::div_trunc;
use crate::values::div_trunc_i64;
use crate::values::Vec3Fx;
use crate::values::SCALE;

verus! {

/// Height below which cursor movement switches from cylindrical to
/// spherical coordinates.
pub const CURSOR_MODE_Y_FX: i64 = -7000;

/// Offset added to the cartesian height before a spherical step and removed
/// after it, keeping the position continuous at the mode switch.
pub const SPHERE_LIFT_FX: i64 = 7000;

/// One full turn, in fixed-point radians.
pub const TWO_PI_FX: i64 = 62832;

/// Largest polar angle the spherical mode allows, in fixed-point radians:
/// about two thirds of a half turn, keeping the cursor off the dome's
/// bottom pole.
pub const POLAR_LIMIT_FX: i64 = 20420;

/// Pixels of mouse movement per unit of angle or height.
pub const X_SENSITIVITY: i64 = 500;

/// Pixels of mouse movement per unit of angle or height.
pub const Y_SENSITIVITY: i64 = 300;

/// Largest angle or height magnitude the stepping functions accept.
pub const ANGLE_FX_MAX: i64 = 1_000_000_000_000;

/// Largest magnitude `wrap_angle` accepts: wide enough for any stored angle
/// plus any single mouse step.
pub const WRAP_ANGLE_IN_MAX: i64 = 1_000_000_000_000_000;

/// How the rendered cursor looks.
#[derive(Clone, Copy, Debug, PartialEq, Eq, Structural)]
pub enum CursorType {
    Point,
    Resize(ResizeType),
}

/// Which resize affordance the cursor shows.
#[derive(Clone, Copy, Debug, PartialEq, Eq, Structural)]
pub enum ResizeType {
    Vertical,
    Horizontal,
    MixedLeft,
    MixedRight,
}

/// Which parameterization a cursor step uses.
#[derive(Clone, Copy, Debug, PartialEq, Eq, Structural)]
pub enum CursorMode {
    Cylindrical,
    Spherical,
}

/// Where an angle lands after wrap-around: its remainder of a full turn.
pub open spec fn wrap_angle_spec(a: int) -> int {
    a % (TWO_PI_FX as int)
}

/// Brings an angle back into the half-open turn `[0, 2*pi)` by whole-turn
/// steps, as the cursor does after each angular move.
pub fn wrap_angle(a: i64) -> (r: i64)
    requires
        -WRAP_ANGLE_IN_MAX <= a <= WRAP_ANGLE_IN_MAX,
    ensures
        r == wrap_angle_spec(a as int),
        0 <= r < TWO_PI_FX,
        (a - r) % (TWO_PI_FX as int) == 0,
{
    let mut theta: i64 = a;
    let ghost mut k: int = 0;
    while theta >= TWO_PI_FX
        invariant
            theta == a + k * (TWO_PI_FX as int),
        decreases theta,
    {
        theta = theta - TWO_PI_FX;
        proof {
            k = k - 1;
        }
    }
    while theta < 0
        invariant
            theta == a + k * (TWO_PI_FX as int),
            theta < TWO_PI_FX,
        decreases TWO_PI_FX - theta,
    {
        theta = theta + TWO_PI_FX;
        proof {
            k = k + 1;
        }
    }
    proof {
        let t = TWO_PI_FX as int;
        lemma_fundamental_div_mod_converse_mod(a as int, t, -k, theta as int);
        assert(theta == (a as int) % t);
        lemma_mod_multiples_basic(-k, t);
        assert((a - theta) == -k * t);
    }
    theta
}

/// One cylindrical step of the cursor: the point `(radius, angle, height)`
/// turns by the horizontal mouse movement, wrapping into one turn, and
/// rises by the vertical movement; the radius never changes.
pub fn advance_cylindrical(cyl: Vec3Fx, dx: i32, dy: i32) -> (r: Vec3Fx)
    requires
        -ANGLE_FX_MAX + 50_000_000 <= cyl.y <= ANGLE_FX_MAX - 50_000_000,
        -ANGLE_FX_MAX <= cyl.z <= ANGLE_FX_MAX,
    ensures
        r.x == cyl.x,
        r.y == wrap_angle_spec(cyl.y + div_trunc(dx * (SCALE as int), X_SENSITIVITY as int)),
        r.z == cyl.z + div_trunc(-dy * (SCALE as int), Y_SENSITIVITY as int),
{
    let dtheta: i64 = div_trunc_i64(dx as i64 * SCALE, X_SENSITIVITY);
    let dheight: i64 = div_trunc_i64(-(dy as i64) * SCALE, Y_SENSITIVITY);
    Vec3Fx { x: cyl.x, y: wrap_angle(cyl.y + dtheta), z: cyl.z + dheight }
}

/// One spherical step of the cursor: the point `(radius, polar, azimuth)`
/// turns by the horizontal mouse movement, wrapping into one turn, and its
/// polar angle grows with the vertical movement, clamped away from the
/// dome's bottom pole; the radius never changes.
pub fn advance_spherical(sph: Vec3Fx, dx: i32, dy: i32) -> (r: Vec3Fx)
    requires
        -ANGLE_FX_MAX + 50_000_000 <= sph.z <= ANGLE_FX_MAX - 50_000_000,
        -ANGLE_FX_MAX <= sph.y <= ANGLE_FX_MAX,
    ensures
        r.x == sph.x,
        r.z == wrap_angle_spec(sph.z + div_trunc(dx * (SCALE as int), X_SENSITIVITY as int)),
        ({
            let polar = sph.y + div_trunc(dy * (SCALE as int), Y_SENSITIVITY as int);
            r.y == if polar >= POLAR_LIMIT_FX {
                POLAR_LIMIT_FX as int
            } else {
                polar
            }
        }),
{
    let dazimuth: i64 = div_trunc_i64(dx as i64 * SCALE, X_SENSITIVITY);
    let dpolar: i64 = div_trunc_i64(dy as i64 * SCALE, Y_SENSITIVITY);
    let polar: i64 = sph.y + dpolar;
    let polar: i64 = if polar >= POLAR_LIMIT_FX {
        POLAR_LIMIT_FX
    } else {
        polar
    };
    Vec3Fx { x: sph.x, y: polar, z: wrap_angle(sph.z + dazimuth) }
}

/// Where the lift before a spherical step puts a point.
pub open spec fn spec_lift(p: Vec3Fx) -> Vec3Fx {
    Vec3Fx { x: p.x, y: (p.y + SPHERE_LIFT_FX) as i64, z: p.z }
}

/// Where the inverse lift after a spherical step puts a point.
pub open spec fn spec_drop(p: Vec3Fx) -> Vec3Fx {
    Vec3Fx { x: p.x, y: (p.y - SPHERE_LIFT_FX) as i64, z: p.z }
}

/// The fixed lift applied to the cartesian height before it is converted to
/// spherical coordinates.
pub fn lift_for_spherical(p: Vec3Fx) -> (r: Vec3Fx)
    requires
        -COORD_FX_MAX <= p.y <= COORD_FX_MAX,
    ensures
        r == spec_lift(p),
{
    Vec3Fx { x: p.x, y: p.y + SPHERE_LIFT_FX, z: p.z }
}

/// The inverse lift applied after the spherical step's result is converted
/// back to cartesian coordinates.
pub fn drop_after_spherical(p: Vec3Fx) -> (r: Vec3Fx)
    requires
        -COORD_FX_MAX <= p.y <= COORD_FX_MAX,
    ensures
        r == spec_drop(p),
{
    Vec3Fx { x: p.x, y: p.y - SPHERE_LIFT_FX, z: p.z }
}

/// Lifting for the spherical step and dropping after it cancel exactly, so
/// the mode switch's offset by itself moves no point.
pub proof fn lemma_mode_offset_cancels(p: Vec3Fx)
    requires
        -COORD_FX_MAX <= p.y <= COORD_FX_MAX,
    ensures
        spec_drop(spec_lift(p)) == p,
{
}

/// Wrapping an angle changes it by a whole number of turns, so the
/// direction it denotes is unchanged.
pub proof fn lemma_wrap_keeps_direction(a: int)
    ensures
        (a - wrap_angle_spec(a)) % (TWO_PI_FX as int) == 0,
        0 <= wrap_angle_spec(a) < TWO_PI_FX,
{
    let t = TWO_PI_FX as int;
    vstd::arithmetic::div_mod::lemma_mod_bound(a, t);
    vstd::arithmetic::div_mod::lemma_fundamental_div_mod(a, t);
    assert(a - a % t == (a / t) * t) by (nonlinear_arith)
        requires
            a == t * (a / t) + a % t,
    ;
    lemma_mod_multiples_basic(a / t, t);
}

/// The virtual cursor: its cartesian position on the surface and the glyph
/// it is drawn with.
#[derive(Clone, Copy, Debug, PartialEq, Eq, Structural)]
pub struct VMouse {
    pub pos: Vec3Fx,
    pub cursor_type: CursorType,
}

impl VMouse {
    pub open spec fn wf(self) -> bool {
        &&& -COORD_FX_MAX <= self.pos.x <= COORD_FX_MAX
        &&& -COORD_FX_MAX <= self.pos.y <= COORD_FX_MAX
        &&& -COORD_FX_MAX <= self.pos.z <= COORD_FX_MAX
    }

    /// The cursor starts on the surface straight ahead of the user, where
    /// the cylindrical angle is zero and the conversion is exact.
    pub fn new(radius: i64) -> (r: VMouse)
        requires
            0 < radius <= COORD_FX_MAX,
        ensures
            r.wf(),
            r.pos == (Vec3Fx { x: radius, y: 0, z: 0 }),
            r.cursor_type == CursorType::Resize(ResizeType::Vertical),
    {
        VMouse {
            pos: Vec3Fx { x: radius, y: 0, z: 0 },
            cursor_type: CursorType::Resize(ResizeType::Vertical),
        }
    }

    /// Which parameterization the next step uses: cylindrical above the
    /// height threshold, spherical at or below it.
    pub fn cursor_mode(&self) -> (r: CursorMode)
        ensures
            r == CursorMode::Cylindrical <==> self.pos.y > CURSOR_MODE_Y_FX,
            r == CursorMode::Spherical <==> self.pos.y <= CURSOR_MODE_Y_FX,
    {
        if self.pos.y > CURSOR_MODE_Y_FX {
            CursorMode::Cylindrical
        } else {
            CursorMode::Spherical
        }
    }

    /// Stores the position that the step's conversions produced.
    pub fn set_pos(&mut self, pos: Vec3Fx)
        requires
            -COORD_FX_MAX <= pos.x <= COORD_FX_MAX,
            -COORD_FX_MAX <= pos.y <= COORD_FX_MAX,
            -COORD_FX_MAX <= pos.z <= COORD_FX_MAX,
        ensures
            final(self).wf(),
            final(self).pos == pos,
            final(self).cursor_type == old(self).cursor_type,
    {
        self.pos = pos;
    }

    /// Changes the rendered cursor glyph and nothing else.
    pub fn set_cursor_type(&mut self, cursor_type: CursorType)
        ensures
            final(self).cursor_type == cursor_type,
            final(self).pos == old(self).pos,
    {
        self.cursor_type = cursor_type;
    }
}

} // verus!
