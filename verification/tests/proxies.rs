//! The OS window and cursor proxies: rectangle validity, aspect-constrained
//! resizing, parking positions, and cursor deltas.

use cloudcafe_client::normalize_position;
use cloudcafe_client::real_rect_inset;
use cloudcafe_client::rect_size;
use cloudcafe_client::FakeMonitor;
use cloudcafe_client::IMouse;
use cloudcafe_client::IVec2;
use cloudcafe_client::IWindow;
use cloudcafe_client::Rect;
use cloudcafe_client::UVec2;

fn monitor() -> FakeMonitor {
    FakeMonitor { handle: 7, pos: IVec2 { x: 0, y: 0 }, size: UVec2 { x: 4000, y: 2000 } }
}

fn rect(left: i32, top: i32, width: i32, height: i32) -> Rect {
    Rect { left, top, right: left + width, bottom: top + height }
}

#[test]
fn rect_size_rejects_inverted() {
    assert_eq!(rect_size(rect(10, 10, 100, 50)), Some(UVec2 { x: 100, y: 50 }));
    assert_eq!(rect_size(rect(10, 10, 0, 0)), Some(UVec2 { x: 0, y: 0 }));
    assert_eq!(rect_size(Rect { left: 10, top: 10, right: 9, bottom: 20 }), None);
    assert_eq!(rect_size(Rect { left: 10, top: 10, right: 20, bottom: 9 }), None);
}

#[test]
fn monitor_from_rect() {
    let m = FakeMonitor::new(5, rect(-100, 20, 4000, 2000)).unwrap();
    assert_eq!(m.pos, IVec2 { x: -100, y: 20 });
    assert_eq!(m.size, UVec2 { x: 4000, y: 2000 });
    assert!(FakeMonitor::new(5, Rect { left: 0, top: 0, right: -1, bottom: 0 }).is_err());
}

#[test]
fn window_proxy_tracks_size() {
    let mut w = IWindow::new(9, monitor(), rect(100, 100, 800, 600)).unwrap();
    assert!(!w.size_changed(Some(UVec2 { x: 800, y: 600 })));
    assert!(w.size_changed(Some(UVec2 { x: 801, y: 600 })));
    assert!(w.size_changed(None));
    assert!(w.update_size(Some(UVec2 { x: 801, y: 600 })).is_some());
    assert!(!w.size_changed(Some(UVec2 { x: 801, y: 600 })));
    assert!(w.update_size(None).is_none());
    assert!(IWindow::new(9, monitor(), Rect { left: 0, top: 0, right: -1, bottom: 0 }).is_err());
}

#[test]
fn aspect_ratio_prefers_height_fit() {
    let w = IWindow::new(9, monitor(), rect(0, 0, 100, 100)).unwrap();
    // Padded half-box of a 4000 by 2000 monitor: 1960 by 1920.  At a wide
    // ratio the width is pinned and the height derived from it.
    let cmd = w.set_aspect_ratio(17_000, IVec2 { x: 3, y: 4 });
    assert_eq!(cmd.pos, IVec2 { x: 3, y: 4 });
    assert_eq!(cmd.size, UVec2 { x: 1960, y: 1152 });
    // At a tall ratio the derived height would leave the box, so the
    // height is pinned and the width derived instead.
    let cmd = w.set_aspect_ratio(5000, IVec2 { x: 0, y: 0 });
    assert_eq!(cmd.size, UVec2 { x: 960, y: 1920 });
}

#[test]
fn park_positions() {
    let w = IWindow::new(9, monitor(), rect(100, 100, 800, 600)).unwrap();
    let active = w.move_to_active(Some(UVec2 { x: 800, y: 600 })).unwrap();
    assert_eq!(active.pos, IVec2 { x: 3160, y: 40 });
    assert_eq!(active.size, UVec2 { x: 800, y: 600 });
    let inactive = w.move_to_inactive(Some(UVec2 { x: 800, y: 600 })).unwrap();
    assert_eq!(inactive.pos, IVec2 { x: 40, y: 40 });
    assert!(w.move_to_active(None).is_none());
    assert!(w.move_to_inactive(None).is_none());
}

#[test]
fn move_commands_keep_other_axis() {
    let w = IWindow::new(9, monitor(), rect(100, 100, 800, 600)).unwrap();
    let cmd = w.set_size(UVec2 { x: 640, y: 480 }, IVec2 { x: 100, y: 100 });
    assert_eq!(cmd.pos, IVec2 { x: 100, y: 100 });
    assert_eq!(cmd.size, UVec2 { x: 640, y: 480 });
    let cmd = w.set_pos(IVec2 { x: 5, y: 6 }, Some(UVec2 { x: 800, y: 600 })).unwrap();
    assert_eq!(cmd.pos, IVec2 { x: 5, y: 6 });
    assert_eq!(cmd.size, UVec2 { x: 800, y: 600 });
    assert!(w.set_pos(IVec2 { x: 5, y: 6 }, None).is_none());
}

#[test]
fn imouse_tick_delta() {
    let mut m = IMouse::new(IVec2 { x: 300, y: 300 }, IVec2 { x: 10, y: 20 });
    let cmd = m.tick(IVec2 { x: 25, y: 15 });
    assert!(cmd.is_none());
    assert_eq!(m.delta_pos, IVec2 { x: 15, y: -5 });
    assert_eq!(m.pos, IVec2 { x: 25, y: 15 });
}

#[test]
fn imouse_lock_snaps_to_baseline() {
    let mut m = IMouse::new(IVec2 { x: 300, y: 300 }, IVec2 { x: 300, y: 300 });
    m.lock_cursor = true;
    let cmd = m.tick(IVec2 { x: 310, y: 295 });
    // The delta reads against the stable baseline, and the caller is told
    // to snap the real cursor back.
    assert_eq!(m.delta_pos, IVec2 { x: 10, y: -5 });
    assert_eq!(cmd, Some(IVec2 { x: 300, y: 300 }));
    assert_eq!(m.pos, IVec2 { x: 300, y: 300 });
    // Next frame's delta is again relative to the lock point.
    let _ = m.tick(IVec2 { x: 303, y: 301 });
    assert_eq!(m.delta_pos, IVec2 { x: 3, y: 1 });
}

#[test]
fn normalize_position_snaps_small_overhang() {
    assert_eq!(
        normalize_position(rect(100, 50, 10, 10)),
        Some(UVec2 { x: 100, y: 50 })
    );
    assert_eq!(normalize_position(rect(-9, 50, 10, 10)), Some(UVec2 { x: 0, y: 50 }));
    assert_eq!(normalize_position(rect(-10, 50, 10, 10)), None);
    assert_eq!(normalize_position(rect(100, -1, 10, 10)), None);
}

#[test]
fn frame_inset_trims_right_and_top() {
    let r = real_rect_inset(rect(100, 50, 800, 600));
    assert_eq!(r.left, 100);
    assert_eq!(r.top, 40);
    assert_eq!(r.right, 879);
    assert_eq!(r.bottom, 650);
}

#[test]
fn aspect_ratio_extremes() {
    let w = IWindow::new(9, monitor(), rect(0, 0, 100, 100)).unwrap();
    // The narrowest accepted ratio pins the full height and derives a
    // degenerate width.
    let cmd = w.set_aspect_ratio(1, IVec2 { x: 0, y: 0 });
    assert_eq!(cmd.size, UVec2 { x: 0, y: 1920 });
    // The widest accepted ratio pins the width and derives a tiny height.
    let cmd = w.set_aspect_ratio(1_000_000, IVec2 { x: 0, y: 0 });
    assert_eq!(cmd.size, UVec2 { x: 1960, y: 19 });
}
