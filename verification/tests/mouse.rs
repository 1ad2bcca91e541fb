//! The virtual cursor: mode selection, angular stepping with wrap-around,
//! the polar clamp, and the mode-switch offset.

use cloudcafe_client::advance_cylindrical;
use cloudcafe_client::advance_spherical;
use cloudcafe_client::drop_after_spherical;
use cloudcafe_client::lift_for_spherical;
use cloudcafe_client::wrap_angle;
use cloudcafe_client::CursorMode;
use cloudcafe_client::CursorType;
use cloudcafe_client::ResizeType;
use cloudcafe_client::VMouse;
use cloudcafe_client::Vec3Fx;
use cloudcafe_client::POLAR_LIMIT_FX;
use cloudcafe_client::TWO_PI_FX;

#[test]
fn wrap_angle_cases() {
    assert_eq!(wrap_angle(0), 0);
    assert_eq!(wrap_angle(7), 7);
    assert_eq!(wrap_angle(TWO_PI_FX - 1), TWO_PI_FX - 1);
    // A full turn, or any whole number of turns, lands back at zero.
    assert_eq!(wrap_angle(TWO_PI_FX), 0);
    assert_eq!(wrap_angle(TWO_PI_FX + 7), 7);
    assert_eq!(wrap_angle(2 * TWO_PI_FX), 0);
    assert_eq!(wrap_angle(-5), TWO_PI_FX - 5);
    assert_eq!(wrap_angle(-TWO_PI_FX), 0);
    assert_eq!(wrap_angle(10 * TWO_PI_FX + 123), 123);
}

#[test]
fn wrap_keeps_direction() {
    // Wrapping always moves the angle by a whole number of turns and
    // lands inside the half-open turn.
    for a in [-500_000i64, -1, 0, 1, 62_812, 62_832, 62_833, 999_999, 123_456_789] {
        let r = wrap_angle(a);
        assert!(0 <= r && r < TWO_PI_FX);
        assert_eq!((a - r).rem_euclid(TWO_PI_FX), 0);
    }
    // One pixel of turn past a near-full angle wraps through zero rather
    // than resting on the full turn.
    assert_eq!(wrap_angle(62_812 + 20), 0);
    assert_eq!(wrap_angle(62_812 + 40), 20);
}

#[test]
fn cylindrical_step() {
    // Sensitivity 500: 500 pixels sweep one radian; vertical movement is
    // inverted and scaled by 300.
    let cyl = Vec3Fx { x: 12_000, y: 0, z: 0 };
    let r = advance_cylindrical(cyl, 500, 300);
    assert_eq!(r.x, 12_000);
    assert_eq!(r.y, 10_000);
    assert_eq!(r.z, -10_000);
    // A negative turn wraps around.
    let r = advance_cylindrical(Vec3Fx { x: 12_000, y: 5, z: 0 }, -1, 0);
    assert_eq!(r.y, TWO_PI_FX - 15);
}

#[test]
fn spherical_step_clamps_polar() {
    let sph = Vec3Fx { x: 12_000, y: POLAR_LIMIT_FX - 5, z: 100 };
    let r = advance_spherical(sph, 0, 300);
    // The polar angle would pass the limit and is clamped there.
    assert_eq!(r.y, POLAR_LIMIT_FX);
    assert_eq!(r.x, 12_000);
    assert_eq!(r.z, 100);
    // Below the limit it moves freely.
    let r = advance_spherical(Vec3Fx { x: 12_000, y: 0, z: 100 }, 0, -300);
    assert_eq!(r.y, -10_000);
}

#[test]
fn cursor_mode_threshold() {
    let mut m = VMouse::new(12_000);
    assert_eq!(m.cursor_type, CursorType::Resize(ResizeType::Vertical));
    assert_eq!(m.cursor_mode(), CursorMode::Cylindrical);
    m.set_pos(Vec3Fx { x: 0, y: -6999, z: -12_000 });
    assert_eq!(m.cursor_mode(), CursorMode::Cylindrical);
    m.set_pos(Vec3Fx { x: 0, y: -7000, z: -12_000 });
    assert_eq!(m.cursor_mode(), CursorMode::Spherical);
    m.set_cursor_type(CursorType::Point);
    assert_eq!(m.cursor_type, CursorType::Point);
}

#[test]
fn mode_switch_offset_cancels() {
    let p = Vec3Fx { x: 123, y: -8000, z: -456 };
    let lifted = lift_for_spherical(p);
    assert_eq!(lifted.y, -1000);
    assert_eq!(drop_after_spherical(lifted), p);
}
