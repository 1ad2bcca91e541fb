//! Hit classification, resize stepping, and crop regeneration on focus
//! changes.

use cloudcafe_client::aspect_step;
use cloudcafe_client::classify_hit;
use cloudcafe_client::face_user_orientation;
use cloudcafe_client::region_cursor;
use cloudcafe_client::CropValues;
use cloudcafe_client::CursorType;
use cloudcafe_client::FakeMonitor;
use cloudcafe_client::HitRegion;
use cloudcafe_client::IVec2;
use cloudcafe_client::PoseFx;
use cloudcafe_client::QuatFx;
use cloudcafe_client::Rect;
use cloudcafe_client::ResizeType;
use cloudcafe_client::UVec2;
use cloudcafe_client::VDesktop;
use cloudcafe_client::VWindow;
use cloudcafe_client::Vec3Fx;

fn monitor() -> FakeMonitor {
    FakeMonitor { handle: 77, pos: IVec2 { x: 0, y: 0 }, size: UVec2 { x: 4000, y: 2000 } }
}

fn rect(left: i32, top: i32, width: i32, height: i32) -> Rect {
    Rect { left, top, right: left + width, bottom: top + height }
}

fn desktop_with_window(hwnd: i64) -> VDesktop {
    let mut d = VDesktop::new(1, monitor(), 12_000);
    let pose = PoseFx {
        position: Vec3Fx { x: 0, y: 0, z: -12_000 },
        orientation: QuatFx { x: 0, y: 0, z: 0, w: 10_000 },
    };
    let w = VWindow::new(hwnd, monitor(), rect(1000, 500, 800, 600), pose, 0).unwrap();
    d.register_window(hwnd, Some(w));
    d
}

#[test]
fn hit_regions() {
    // Corners win over edges; both side margins are edges in between.
    assert_eq!(classify_hit(100, 9900), HitRegion::CornerLeft);
    assert_eq!(classify_hit(100, 100), HitRegion::CornerLeft);
    assert_eq!(classify_hit(9900, 9900), HitRegion::CornerRight);
    assert_eq!(classify_hit(9900, 100), HitRegion::CornerRight);
    assert_eq!(classify_hit(100, 5000), HitRegion::EdgeHorizontal);
    assert_eq!(classify_hit(9900, 5000), HitRegion::EdgeHorizontal);
    assert_eq!(classify_hit(5000, 100), HitRegion::EdgeVertical);
    assert_eq!(classify_hit(5000, 9900), HitRegion::EdgeVertical);
    assert_eq!(classify_hit(5000, 5000), HitRegion::Inside);
    assert_eq!(classify_hit(301, 301), HitRegion::Inside);
    // A right-edge click therefore steps the aspect ratio like the left.
    assert_eq!(
        aspect_step(classify_hit(9900, 5000), true, false, 17_000),
        Some(18_000)
    );
}

#[test]
fn region_cursor_glyphs() {
    assert_eq!(region_cursor(HitRegion::CornerLeft), CursorType::Resize(ResizeType::MixedLeft));
    assert_eq!(region_cursor(HitRegion::CornerRight), CursorType::Resize(ResizeType::MixedRight));
    assert_eq!(
        region_cursor(HitRegion::EdgeHorizontal),
        CursorType::Resize(ResizeType::Horizontal)
    );
    assert_eq!(region_cursor(HitRegion::EdgeVertical), CursorType::Resize(ResizeType::Vertical));
    assert_eq!(region_cursor(HitRegion::Inside), CursorType::Point);
}

#[test]
fn aspect_steps() {
    // A side-margin left click widens by a tenth; top and bottom margins
    // narrow; right clicks do the opposite and win over left.
    assert_eq!(aspect_step(HitRegion::EdgeHorizontal, true, false, 17_000), Some(18_000));
    assert_eq!(aspect_step(HitRegion::EdgeHorizontal, false, true, 17_000), Some(16_000));
    assert_eq!(aspect_step(HitRegion::EdgeHorizontal, true, true, 17_000), Some(16_000));
    assert_eq!(aspect_step(HitRegion::EdgeVertical, true, false, 17_000), Some(16_000));
    assert_eq!(aspect_step(HitRegion::EdgeVertical, false, true, 17_000), Some(18_000));
    assert_eq!(aspect_step(HitRegion::EdgeVertical, false, false, 17_000), None);
    assert_eq!(aspect_step(HitRegion::Inside, true, true, 17_000), None);
    assert_eq!(aspect_step(HitRegion::CornerLeft, true, true, 17_000), None);
}

#[test]
fn resize_command_refits_window() {
    let d = desktop_with_window(10);
    let cmd = d.resize_command(10, 17_000, IVec2 { x: 1000, y: 500 }).unwrap();
    assert_eq!(cmd.hwnd, 10);
    assert_eq!(cmd.pos, IVec2 { x: 1000, y: 500 });
    assert_eq!(cmd.size, UVec2 { x: 1960, y: 1152 });
    // Unknown handles and out-of-range ratios give no command.
    assert!(d.resize_command(11, 17_000, IVec2 { x: 0, y: 0 }).is_none());
    assert!(d.resize_command(10, 0, IVec2 { x: 0, y: 0 }).is_none());
    assert!(d.resize_command(10, -1000, IVec2 { x: 0, y: 0 }).is_none());
}

#[test]
fn face_user_zeroes_tilt_above_threshold() {
    let look = QuatFx { x: 1, y: 2, z: 3, w: 4 };
    assert_eq!(face_user_orientation(look, 0), QuatFx { x: 0, y: 2, z: 0, w: 4 });
    assert_eq!(face_user_orientation(look, -6999), QuatFx { x: 0, y: 2, z: 0, w: 4 });
    assert_eq!(face_user_orientation(look, -7000), look);
    assert_eq!(face_user_orientation(look, -9000), look);
}

#[test]
fn refresh_crop_unfocused_trims_own_capture() {
    let mut d = desktop_with_window(10);
    assert!(d.captured_window.is_none());
    let crop = d
        .refresh_crop(10, Some(UVec2 { x: 500, y: 500 }), rect(0, 0, 1, 1))
        .unwrap();
    assert_eq!(crop, CropValues { left: 0, right: 0, bottom: 9660, top: 9803 });
    let w = &d.windows[0];
    assert_eq!(w.window_capture.as_ref().unwrap().crop, crop);
    // Without a readable size nothing changes.
    assert!(d.refresh_crop(10, None, rect(0, 0, 1, 1)).is_none());
}

#[test]
fn refresh_crop_focused_uses_desktop_rect() {
    let mut d = desktop_with_window(10);
    let _ = d.begin_capture(10, UVec2 { x: 1, y: 1 }, IVec2 { x: 1000, y: 500 });
    let crop = d
        .refresh_crop(10, Some(UVec2 { x: 800, y: 600 }), rect(1000, 500, 800, 600))
        .unwrap();
    assert_eq!(crop, CropValues { left: 2501, right: 5501, bottom: 7499, top: 5499 });
    assert_eq!(d.windows[0].window_capture.as_ref().unwrap().crop, crop);
    // An inverted rectangle is refused.
    assert!(
        d.refresh_crop(10, Some(UVec2 { x: 800, y: 600 }), Rect {
            left: 0,
            top: 0,
            right: -1,
            bottom: 0
        })
        .is_none()
    );
    // An unknown handle is refused.
    assert!(d.refresh_crop(11, Some(UVec2 { x: 800, y: 600 }), rect(0, 0, 800, 600)).is_none());
}

#[test]
fn hit_pixel_applies_fractions() {
    let px = cloudcafe_client::hit_pixel(2500, 7500, UVec2 { x: 800, y: 600 });
    assert_eq!(px, UVec2 { x: 200, y: 450 });
    let px = cloudcafe_client::hit_pixel(10_000, 0, UVec2 { x: 800, y: 600 });
    assert_eq!(px, UVec2 { x: 800, y: 0 });
}

#[test]
fn corner_click_starts_resize() {
    let mut d = desktop_with_window(10);
    assert!(d.begin_resize(10, ResizeType::MixedLeft));
    // The target records the window, the axis, and the cursor's offset
    // from the quad's lower edge (cursor rests at (12000, 0, 0)).
    let (id, axis, offset) = d.resize_window.unwrap();
    assert_eq!(id, 10);
    assert_eq!(axis, ResizeType::MixedLeft);
    assert_eq!(offset, Vec3Fx { x: -12_000, y: -3000, z: -12_000 });
    // The target holds while the button stays down and clears on release.
    d.resize_tick(true);
    assert!(d.resize_window.is_some());
    d.resize_tick(false);
    assert!(d.resize_window.is_none());
    // An unknown handle starts nothing.
    assert!(!d.begin_resize(99, ResizeType::MixedRight));
    assert!(d.resize_window.is_none());
}

#[test]
fn resize_command_accepts_wide_ratios() {
    // A two-thousand-to-one window still steps: the cap sits far beyond
    // any real ratio.
    let d = desktop_with_window(10);
    let cmd = d.resize_command(10, 20_000_000, IVec2 { x: 0, y: 0 }).unwrap();
    assert_eq!(cmd.size, UVec2 { x: 1960, y: 0 });
    assert!(d.resize_command(10, 100_000_001, IVec2 { x: 0, y: 0 }).is_none());
}
