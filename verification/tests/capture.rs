//! The capture unit: the lossy frame queue and the crop arithmetic.

use cloudcafe_client::calculate_crop_values;
use cloudcafe_client::mesh_corner_uvs;
use cloudcafe_client::unfocused_crop;
use cloudcafe_client::CropValues;
use cloudcafe_client::FrameQueue;
use cloudcafe_client::UVec2;
use cloudcafe_client::Vec2Fx;
use cloudcafe_client::WindowCapture;

#[test]
fn drain_keeps_only_newest() {
    let mut q = FrameQueue::new();
    q.push(11);
    q.push(22);
    q.push(33);
    assert_eq!(q.drain_latest(), Some(33));
    assert_eq!(q.len(), 0);
}

#[test]
fn drain_empty_returns_none() {
    let mut q = FrameQueue::new();
    assert_eq!(q.drain_latest(), None);
    assert_eq!(q.len(), 0);
}

#[test]
fn unfocused_draw_reads_own_stream() {
    let mut c = WindowCapture::new(UVec2 { x: 800, y: 600 });
    let mut desktop = FrameQueue::new();
    desktop.push(1);
    c.frames.push(7);
    c.frames.push(8);
    c.get_draw_texture(false, &mut desktop);
    assert_eq!(c.displayed, Some(8));
    assert_eq!(c.frames.len(), 0);
    assert_eq!(desktop.len(), 1);
    // With nothing pending, the texture keeps its frame.
    c.get_draw_texture(false, &mut desktop);
    assert_eq!(c.displayed, Some(8));
}

#[test]
fn focused_draw_reads_desktop_stream() {
    let mut c = WindowCapture::new(UVec2 { x: 800, y: 600 });
    let mut desktop = FrameQueue::new();
    desktop.push(41);
    desktop.push(42);
    c.frames.push(7);
    c.get_draw_texture(true, &mut desktop);
    assert_eq!(c.displayed, Some(42));
    assert_eq!(desktop.len(), 0);
    assert_eq!(c.frames.len(), 1);
}

#[test]
fn capture_new_scales_window() {
    let c = WindowCapture::new(UVec2 { x: 800, y: 600 });
    assert_eq!(c.scale(), Vec2Fx { x: 8000, y: 6000 });
    assert_eq!(c.crop, CropValues { left: 0, right: 0, bottom: 10_000, top: 10_000 });
    assert_eq!(c.displayed, None);
}

#[test]
fn crop_values_formula() {
    let crop = calculate_crop_values(0, 0, 4000, 2000, 1000, 500, 800, 600);
    assert_eq!(crop, CropValues { left: 2501, right: 5501, bottom: 7499, top: 5499 });
    // A window hanging off the monitor's left edge gives a negative left
    // fraction, truncated toward zero.
    let crop = calculate_crop_values(0, 0, 4000, 2000, -100, 0, 800, 600);
    assert_eq!(crop.left, -250 + 1);
}

#[test]
fn unfocused_crop_formula() {
    let crop = unfocused_crop(UVec2 { x: 500, y: 500 });
    assert_eq!(crop, CropValues { left: 0, right: 0, bottom: 9660, top: 9803 });
}

#[test]
fn mesh_corner_uv_order() {
    let (v0, v1, v2, v3) = mesh_corner_uvs(1, 2, 3, 4);
    assert_eq!(v0, Vec2Fx { x: 1, y: 4 });
    assert_eq!(v1, Vec2Fx { x: 1, y: 2 });
    assert_eq!(v2, Vec2Fx { x: 3, y: 2 });
    assert_eq!(v3, Vec2Fx { x: 3, y: 4 });
}
