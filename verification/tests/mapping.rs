//! The virtual-to-internal position mapping, exercised on the windows the
//! manager actually produces: square and stretched virtual rectangles, with
//! and without a real-window offset.

use cloudcafe_client::TestWindow;
use cloudcafe_client::UVec2;
use cloudcafe_client::Vec2Fx;
use cloudcafe_client::Vec3Fx;

fn window(
    vp: (i64, i64, i64),
    vs: (i64, i64),
    internal_size: (u32, u32),
    internal_position: (u32, u32),
) -> TestWindow {
    TestWindow {
        virtual_position: Vec3Fx { x: vp.0, y: vp.1, z: vp.2 },
        virtual_size: Vec2Fx { x: vs.0, y: vs.1 },
        internal_size: UVec2 { x: internal_size.0, y: internal_size.1 },
        internal_position: UVec2 { x: internal_position.0, y: internal_position.1 },
    }
}

#[test]
pub fn test_things() {
    let test_window = window((0, 0, 0), (10_000, 10_000), (500, 500), (0, 0));
    let mouse_pos = Vec3Fx { x: 1000, y: -1000, z: 0 };
    let pos = test_window.virtual_to_internal(mouse_pos).unwrap();
    assert_eq!(pos, UVec2 { x: 50, y: 50 });
    let pos = test_window.internal_to_virtual(pos);
    assert_eq!(mouse_pos, pos);

    let test_window = window((0, 0, 0), (10_000, 10_000), (500, 500), (50, 0));
    let mouse_pos = Vec3Fx { x: 1000, y: -1000, z: 0 };
    let pos = test_window.virtual_to_internal(mouse_pos).unwrap();
    assert_eq!(pos, UVec2 { x: 100, y: 50 });
    let pos = test_window.internal_to_virtual(pos);
    assert_eq!(mouse_pos, pos);

    let test_window = window((0, 1000, 0), (10_000, 10_000), (500, 500), (50, 0));
    let mouse_pos = Vec3Fx { x: 1000, y: -1000, z: 0 };
    let pos = test_window.virtual_to_internal(mouse_pos).unwrap();
    assert_eq!(pos, UVec2 { x: 100, y: 100 });
    let pos = test_window.internal_to_virtual(pos);
    assert_eq!(mouse_pos, pos);
}

#[test]
fn second_test() {
    let test_window = window((0, 1000, 0), (3000, 25_000), (500, 500), (50, 0));
    let mouse_pos = Vec3Fx { x: 1000, y: -1000, z: 0 };
    let pos = test_window.virtual_to_internal(mouse_pos).unwrap();
    assert_eq!(pos, UVec2 { x: 216, y: 40 });
    let back = test_window.internal_to_virtual(pos);
    // The horizontal pixel truncation costs four fixed-point units here,
    // within one pixel's worth (six units); the vertical coordinate
    // survives exactly.
    assert_eq!(back, Vec3Fx { x: 996, y: -1000, z: 0 });
    assert!(back.x <= mouse_pos.x && mouse_pos.x - back.x <= 3000 / 500);
    assert_eq!(back.y, mouse_pos.y);
    assert_eq!(back.z, mouse_pos.z);
}

#[test]
pub fn test_inverse() {
    let test_window = window((0, 1000, 0), (10_000, 10_000), (500, 500), (50, 0));
    let mouse_pos = Vec3Fx { x: 1000, y: -1000, z: 0 };
    let pos = test_window.virtual_to_internal(mouse_pos).unwrap();
    assert_eq!(pos, UVec2 { x: 100, y: 100 });
    let pos = test_window.internal_to_virtual(pos);
    assert_eq!(mouse_pos, pos);
}

#[test]
fn outside_point_is_rejected() {
    let w = window((0, 0, 0), (10_000, 10_000), (500, 500), (0, 0));
    // Left of the window, above it, and past either extent.
    assert!(w.virtual_to_internal(Vec3Fx { x: -1, y: -1000, z: 0 }).is_none());
    assert!(w.virtual_to_internal(Vec3Fx { x: 1000, y: 1, z: 0 }).is_none());
    assert!(w.virtual_to_internal(Vec3Fx { x: 10_001, y: -1000, z: 0 }).is_none());
    assert!(w.virtual_to_internal(Vec3Fx { x: 1000, y: -10_001, z: 0 }).is_none());
    // The window's own edges are still inside.
    assert!(w.virtual_to_internal(Vec3Fx { x: 0, y: 0, z: 0 }).is_some());
    assert!(w.virtual_to_internal(Vec3Fx { x: 10_000, y: -10_000, z: 0 }).is_some());
}

#[test]
fn round_trip_error_is_small() {
    // For every point the window holds, the round trip only drifts toward
    // the anchor, and by less than one pixel's worth of the extent plus
    // one pixel.
    let w = window((-2000, 3000, 7), (7777, 12_345), (640, 480), (25, 75));
    let bound_x = (7777 + 640 - 1) / 640;
    let bound_y = (12_345 + 480 - 1) / 480;
    let mut dx: i64 = 0;
    while dx <= 7777 {
        let p = Vec3Fx { x: -2000 + dx, y: 3000 - (dx % 12_345), z: 7 };
        let px = w.virtual_to_internal(p).unwrap();
        let back = w.internal_to_virtual(px);
        assert!(back.x <= p.x && p.x - back.x <= bound_x);
        assert!(back.y >= p.y && back.y - p.y <= bound_y);
        assert_eq!(back.z, 7);
        dx += 391;
    }
}

#[test]
fn wide_window_keeps_pixel_accuracy() {
    // A wide extent over few pixels: the pixel is the single truncation of
    // the exact fraction, and the round trip stays within one pixel's
    // worth of the extent.
    let w = window((0, 0, 0), (1_000_000, 1_000_000), (499, 499), (0, 0));
    let p = Vec3Fx { x: 50_199, y: -50_199, z: 0 };
    let px = w.virtual_to_internal(p).unwrap();
    assert_eq!(px, UVec2 { x: 25, y: 25 });
    let back = w.internal_to_virtual(px);
    assert_eq!(back, Vec3Fx { x: 50_100, y: -50_100, z: 0 });
    let pixel_worth = 1_000_000 / 499;
    assert!(p.x - back.x <= pixel_worth);
    assert!(back.y - p.y <= pixel_worth);
}
