//! Basic value types: integer pixel vectors and fixed-point vectors for
//! coordinates on the virtual surface.
//!
//! A fixed-point value represents the real number `v / SCALE`: one unit is
//! a ten-thousandth of a metre or radian, fine enough to express every
//! constant the manager uses (thresholds, crop borders, aspect-ratio
//! steps) exactly.

use vstd::prelude::*;

verus! {

/// Number of fixed-point units in one whole unit.
pub const SCALE: i64 = 10000;

/// A signed pixel position on the real desktop (screen coordinates).
#[derive(Clone, Copy, Debug, PartialEq, Eq, Structural)]
pub struct IVec2 {
    pub x: i32,
    pub y: i32,
}

/// An unsigned pixel extent (width and height) of a real window or monitor.
#[derive(Clone, Copy, Debug, PartialEq, Eq, Structural)]
pub struct UVec2 {
    pub x: u32,
    pub y: u32,
}

/// A two-component fixed-point vector (virtual sizes, crop fractions).
#[derive(Clone, Copy, Debug, PartialEq, Eq, Structural)]
pub struct Vec2Fx {
    pub x: i64,
    pub y: i64,
}

/// A three-component fixed-point vector (positions on or near the surface).
#[derive(Clone, Copy, Debug, PartialEq, Eq, Structural)]
pub struct Vec3Fx {
    pub x: i64,
    pub y: i64,
    pub z: i64,
}

/// A fixed-point quaternion holding a window's or the cursor's orientation;
/// its components are produced outside this crate and only stored and
/// selectively zeroed here.
#[derive(Clone, Copy, Debug, PartialEq, Eq, Structural)]
pub struct QuatFx {
    pub x: i64,
    pub y: i64,
    pub z: i64,
    pub w: i64,
}

/// Truncating division of `a` by a positive `d`, rounding toward zero as the
/// executable code does for either sign of `a`.
pub open spec fn div_trunc(a: int, d: int) -> int {
    if a >= 0 {
        a / d
    } else {
        -((-a) / d)
    }
}

/// Truncating division on machine integers, related exactly to `div_trunc`.
pub fn div_trunc_i64(a: i64, d: i64) -> (r: i64)
    requires
        0 < d,
        -0x4000_0000_0000_0000 < a < 0x4000_0000_0000_0000,
    ensures
        r == div_trunc(a as int, d as int),
        0 <= a ==> 0 <= r <= a,
        a < 0 ==> a <= r <= 0,
{
    proof {
        if a >= 0 {
            vstd::arithmetic::div_mod::lemma_div_pos_is_pos(a as int, d as int);
            vstd::arithmetic::div_mod::lemma_div_nonincreasing(a as int, d as int);
        } else {
            vstd::arithmetic::div_mod::lemma_div_pos_is_pos(-(a as int), d as int);
            vstd::arithmetic::div_mod::lemma_div_nonincreasing(-(a as int), d as int);
        }
    }
    if a >= 0 {
        a / d
    } else {
        -((-a) / d)
    }
}

} // verus!
