//! The window manager's state machine: reconciliation, z-order, and the
//! grab and capture modes.

use cloudcafe_client::captured_outside_rect;
use cloudcafe_client::is_invalid_window;
use cloudcafe_client::pick_monitor;
use cloudcafe_client::str_contains;
use cloudcafe_client::DrawStep;
use cloudcafe_client::FakeMonitor;
use cloudcafe_client::IVec2;
use cloudcafe_client::PoseFx;
use cloudcafe_client::QuatFx;
use cloudcafe_client::Rect;
use cloudcafe_client::UVec2;
use cloudcafe_client::VDesktop;
use cloudcafe_client::VWindow;
use cloudcafe_client::Vec3Fx;

fn monitor() -> FakeMonitor {
    FakeMonitor { handle: 77, pos: IVec2 { x: 0, y: 0 }, size: UVec2 { x: 4000, y: 2000 } }
}

fn rect(left: i32, top: i32, width: i32, height: i32) -> Rect {
    Rect { left, top, right: left + width, bottom: top + height }
}

fn pose() -> PoseFx {
    PoseFx {
        position: Vec3Fx { x: 0, y: 0, z: -12_000 },
        orientation: QuatFx { x: 0, y: 0, z: 0, w: 10_000 },
    }
}

fn desktop_with_three_windows() -> VDesktop {
    let mut d = VDesktop::new(1, monitor(), 12_000);
    for hwnd in [10i64, 20, 30] {
        let w = VWindow::new(hwnd, monitor(), rect(100, 100, 800, 600), pose(), 0).unwrap();
        d.register_window(hwnd, Some(w));
    }
    d
}

#[test]
fn bring_to_top_takes_prior_max() {
    let mut d = desktop_with_three_windows();
    // Registration assigned depths 1, 2, 3.
    assert_eq!(d.highest_z_depth(), 3);
    assert!(d.bring_to_top(10).is_some());
    let depths: Vec<(i64, u32)> = d.windows.iter().map(|w| (w.hwnd, w.z_depth)).collect();
    assert!(depths.contains(&(10, 3)));
    assert!(depths.contains(&(20, 1)));
    assert!(depths.contains(&(30, 2)));
    assert_eq!(d.highest_z_depth(), 3);
}

#[test]
fn bring_to_top_keeps_relative_order() {
    let mut d = desktop_with_three_windows();
    // 20 sits below 30 before; raising 10 must keep it so.
    assert!(d.bring_to_top(10).is_some());
    let z = |d: &VDesktop, h: i64| d.windows.iter().find(|w| w.hwnd == h).unwrap().z_depth;
    assert!(z(&d, 20) < z(&d, 30));
    // Raising an unknown handle changes nothing.
    let before: Vec<u32> = d.windows.iter().map(|w| w.z_depth).collect();
    assert!(d.bring_to_top(99).is_none());
    let after: Vec<u32> = d.windows.iter().map(|w| w.z_depth).collect();
    assert_eq!(before, after);
}

#[test]
fn grab_and_capture_stay_exclusive() {
    let mut d = desktop_with_three_windows();
    assert!(d.try_grab(20));
    assert!(d.grabbed_window.is_some());
    assert!(d.captured_window.is_none());
    // Releasing the button ends the grab.
    let look = QuatFx { x: 5, y: 6, z: 7, w: 8 };
    assert!(!d.grab_tick(false, Vec3Fx { x: 0, y: 0, z: -12_000 }, look));
    assert!(d.grabbed_window.is_none());
    // Only then can focus be captured.
    let target = d.begin_capture(20, UVec2 { x: 30, y: 40 }, IVec2 { x: 100, y: 100 });
    assert_eq!(target, IVec2 { x: 130, y: 140 });
    assert_eq!(d.captured_window, Some(20));
    assert!(d.grabbed_window.is_none());
}

#[test]
fn grab_follows_cursor_and_releases() {
    let mut d = desktop_with_three_windows();
    assert!(d.try_grab(30));
    let (id, offset) = d.grabbed_window.unwrap();
    assert_eq!(id, 30);
    // The offset is the window's position relative to the cursor.
    assert_eq!(offset, Vec3Fx { x: -12_000, y: 0, z: -12_000 });
    let target = d.grab_target().unwrap();
    assert_eq!(target, Vec3Fx { x: 0, y: 0, z: -12_000 });
    // While held, the window takes the snapped position, facing the user
    // with its tilt zeroed (the cursor is above the mode threshold).
    let look = QuatFx { x: 11, y: 22, z: 33, w: 44 };
    let snapped = Vec3Fx { x: 500, y: 600, z: -11_900 };
    assert!(d.grab_tick(true, snapped, look));
    let w = d.windows.iter().find(|w| w.hwnd == 30).unwrap();
    assert_eq!(w.pose.position, snapped);
    assert_eq!(w.pose.orientation, QuatFx { x: 0, y: 22, z: 0, w: 44 });
    assert!(d.grabbed_window.is_some());
}

#[test]
fn zero_width_window_goes_invalid() {
    let mut d = desktop_with_three_windows();
    // The window's rectangle shrinks to zero width: the next draw reports
    // it invalid, and the reconciliation pass removes it.
    let step = d.draw_window(0, true, Some(UVec2 { x: 0, y: 600 }));
    assert_eq!(step, DrawStep::Invalid);
    let hwnd = d.windows[0].hwnd;
    assert!(d.remove_window(hwnd));
    assert!(!d.contains(hwnd));
    assert_eq!(d.windows.len(), 2);
}

#[test]
fn resize_rebuilds_capture() {
    let mut d = desktop_with_three_windows();
    let step = d.draw_window(1, true, Some(UVec2 { x: 1024, y: 768 }));
    assert_eq!(step, DrawStep::Recapture);
    assert!(d.windows[1].window_capture.is_none());
    // The rebuilt capture is installed; a failed rebuild is invalid.
    let capture = cloudcafe_client::WindowCapture::new(UVec2 { x: 1024, y: 768 });
    let verdict = d.finish_window_recapture(1, Some(capture));
    assert_eq!(verdict, cloudcafe_client::IsWindowValid::Valid);
    assert!(d.windows[1].window_capture.is_some());
    // An unchanged window just renders.
    let step = d.draw_window(1, true, Some(UVec2 { x: 1024, y: 768 }));
    assert_eq!(step, DrawStep::Render);
    // A vanished handle is invalid outright.
    let step = d.draw_window(1, false, Some(UVec2 { x: 1024, y: 768 }));
    assert_eq!(step, DrawStep::Invalid);
}

#[test]
fn failed_build_blacklists_handle() {
    let mut d = VDesktop::new(1, monitor(), 12_000);
    assert!(d.should_track(50));
    d.register_window(50, None);
    assert!(!d.should_track(50));
    assert!(!d.contains(50));
    // A registered window is no longer a candidate either.
    let w = VWindow::new(60, monitor(), rect(0, 0, 100, 100), pose(), 0).unwrap();
    d.register_window(60, Some(w));
    assert!(!d.should_track(60));
    assert!(d.contains(60));
}

#[test]
fn captured_tick_holds_inside_border() {
    let mut d = desktop_with_three_windows();
    let target = d.begin_capture(20, UVec2 { x: 1, y: 1 }, IVec2 { x: 100, y: 100 });
    assert_eq!(target, IVec2 { x: 101, y: 101 });
    // Well inside the window: the capture holds.
    let r = d.captured_tick(
        IVec2 { x: 400, y: 300 },
        IVec2 { x: 100, y: 100 },
        Some(UVec2 { x: 800, y: 600 }),
    );
    assert!(r.is_none());
    assert_eq!(d.captured_window, Some(20));
}

#[test]
fn captured_tick_releases_outside_border() {
    let mut d = desktop_with_three_windows();
    d.begin_capture(20, UVec2 { x: 1, y: 1 }, IVec2 { x: 100, y: 100 });
    // Eight pixels of tolerance: just beyond it on the left releases.
    let r = d.captured_tick(
        IVec2 { x: 107, y: 300 },
        IVec2 { x: 100, y: 100 },
        Some(UVec2 { x: 800, y: 600 }),
    );
    assert_eq!(r, Some(20));
    assert!(d.captured_window.is_none());
}

#[test]
fn outside_rect_border_arithmetic() {
    let pos = IVec2 { x: 100, y: 100 };
    let size = UVec2 { x: 800, y: 600 };
    assert!(!captured_outside_rect(IVec2 { x: 108, y: 108 }, pos, size));
    assert!(captured_outside_rect(IVec2 { x: 107, y: 108 }, pos, size));
    assert!(captured_outside_rect(IVec2 { x: 108, y: 107 }, pos, size));
    assert!(!captured_outside_rect(IVec2 { x: 892, y: 690 }, pos, size));
    assert!(captured_outside_rect(IVec2 { x: 893, y: 690 }, pos, size));
    assert!(captured_outside_rect(IVec2 { x: 892, y: 691 }, pos, size));
}

#[test]
fn delay_run_period() {
    let mut d = VDesktop::new(1, monitor(), 12_000);
    let mut fired = 0;
    for _ in 0..30 {
        if d.delay_run() {
            fired += 1;
        }
    }
    assert_eq!(fired, 3);
}

#[test]
fn pick_monitor_takes_last_wide_display() {
    let displays = vec![
        (1i64, rect(0, 0, 1920, 1080)),
        (2i64, rect(1920, 0, 4000, 2000)),
        (3i64, rect(5920, 0, 4000, 2500)),
        (4i64, rect(9920, 0, 800, 600)),
    ];
    let (handle, r) = pick_monitor(&displays).unwrap();
    assert_eq!(handle, 3);
    assert_eq!(r.right - r.left, 4000);
    let none = pick_monitor(&vec![(9i64, rect(0, 0, 1920, 1080))]);
    assert!(none.is_none());
}

#[test]
fn invalid_title_filter() {
    assert!(is_invalid_window("Cloudcafe XR Desktop"));
    assert!(is_invalid_window("xx Cloudcafe XR Desktop - console"));
    assert!(!is_invalid_window("Notepad"));
    assert!(!is_invalid_window("Cloudcafe XR"));
    assert!(str_contains("abcabd", "abd"));
    assert!(!str_contains("abcabd", "abe"));
    assert!(str_contains("anything", ""));
    assert!(!str_contains("", "a"));
}

#[test]
fn grab_bar_geometry_rests_on_top_edge() {
    let (scale, lift) = cloudcafe_client::grab_bar_geometry(UVec2 { x: 800, y: 600 });
    // As wide as the window's quad, a fixed height, and centred half the
    // window plus half the bar above the window's centre.
    assert_eq!(scale.x, 8000);
    assert_eq!(scale.y, 250);
    assert_eq!(lift, 3125);
}

#[test]
fn empty_desktop_basics() {
    let mut d = VDesktop::new(1, monitor(), 12_000);
    assert_eq!(d.highest_z_depth(), 0);
    assert!(d.bring_to_top(5).is_none());
    assert!(!d.remove_window(5));
    assert!(!d.contains(5));
    assert!(d.should_track(5));
    assert!(d.grab_target().is_none());
    assert!(d.captured_tick(
        IVec2 { x: 0, y: 0 },
        IVec2 { x: 0, y: 0 },
        Some(UVec2 { x: 10, y: 10 })
    )
    .is_none());
}
