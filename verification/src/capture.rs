//! The model of a GPU capture unit: a lossy queue of pending frames, the
//! frame currently shown on the texture, and the crop applied to the quad
//! the texture is drawn on.
//!
//! Frame delivery is a non-blocking channel drained once per draw; every
//! queued frame but the newest is dropped, so the display is at most one
//! frame stale and memory never grows.  The GPU session and the texture
//! upload live outside this crate; frames are identified here by plain
//! tokens.

use vstd::prelude::*;
use crate::internal_window::PIXEL_POS_MAX;
use crate::mapping::PIXEL_MAX;
use crate::values::div_trunc;
use crate::values::div_trunc_i64;
use crate::values::UVec2;
use crate::values::Vec2Fx;
use crate::values::SCALE;

verus! {

/// Fixed-point units of virtual size per pixel of window size.
pub const WINDOW_SCALE_FX: i64 = 10;

/// Horizontal pixels trimmed from an unfocused window's own capture to hide
/// edge artifacts.
pub const UNFOCUSED_TRIM_X: u32 = 17;

/// Vertical pixels of slack added below an unfocused window's own capture.
pub const UNFOCUSED_PAD_Y: u32 = 10;

/// Pending frames of one capture stream, oldest first.
pub struct FrameQueue {
    frames: Vec<u64>,
}

impl FrameQueue {
    /// The queued frame tokens, oldest first.
    pub closed spec fn frames(self) -> Seq<u64> {
        self.frames@
    }

    pub fn new() -> (r: FrameQueue)
        ensures
            r.frames() =~= Seq::<u64>::empty(),
    {
        FrameQueue { frames: Vec::new() }
    }

    /// A frame arrives from the producer.
    pub fn push(&mut self, frame: u64)
        ensures
            final(self).frames() =~= old(self).frames().push(frame),
    {
        self.frames.push(frame);
    }

    pub fn len(&self) -> (r: usize)
        ensures
            r == self.frames().len(),
    {
        self.frames.len()
    }

    /// Empties the queue and returns only its newest frame: the lossy
    /// last-wins drain policy.
    pub fn drain_latest(&mut self) -> (r: Option<u64>)
        ensures
            final(self).frames() =~= Seq::<u64>::empty(),
            old(self).frames().len() == 0 ==> r is None,
            old(self).frames().len() > 0 ==> r == Some(old(self).frames().last()),
    {
        let n = self.frames.len();
        if n == 0 {
            None
        } else {
            let last = self.frames[n - 1];
            self.frames.clear();
            Some(last)
        }
    }
}

/// The crop applied to a capture quad, as the four fixed-point fractions the
/// mesh corners are built from.
#[derive(Clone, Copy, Debug, PartialEq, Eq, Structural)]
pub struct CropValues {
    pub left: i64,
    pub right: i64,
    pub bottom: i64,
    pub top: i64,
}

impl CropValues {
    /// The crop showing the full capture.
    pub open spec fn spec_full() -> CropValues {
        CropValues { left: 0, right: 0, bottom: SCALE as i64, top: SCALE as i64 }
    }

    /// The crop showing the full capture.
    pub fn full() -> (r: CropValues)
        ensures
            r == CropValues::spec_full(),
    {
        CropValues { left: 0, right: 0, bottom: SCALE, top: SCALE }
    }
}

/// The capture unit bound to one window: its pending frames, the frame on
/// its texture, the crop of its quad, and the quad's virtual extent.
pub struct WindowCapture {
    /// The window's own capture stream.
    pub frames: FrameQueue,
    /// Frame currently uploaded to the display texture.
    pub displayed: Option<u64>,
    /// Crop currently built into the quad mesh.
    pub crop: CropValues,
    /// Virtual extent of the quad, derived from the window's pixel size.
    pub size: Vec2Fx,
}

impl WindowCapture {
    /// Builds the unit for a window of the given pixel size: empty stream,
    /// nothing displayed, no crop, and a quad extent of one virtual
    /// thousandth per pixel.
    pub fn new(window_size: UVec2) -> (r: WindowCapture)
        requires
            window_size.x <= PIXEL_MAX,
            window_size.y <= PIXEL_MAX,
        ensures
            r.frames.frames() =~= Seq::<u64>::empty(),
            r.displayed is None,
            r.crop == CropValues::spec_full(),
            r.size.x == window_size.x * WINDOW_SCALE_FX,
            r.size.y == window_size.y * WINDOW_SCALE_FX,
    {
        WindowCapture {
            frames: FrameQueue::new(),
            displayed: None,
            crop: CropValues::full(),
            size: Vec2Fx {
                x: window_size.x as i64 * WINDOW_SCALE_FX,
                y: window_size.y as i64 * WINDOW_SCALE_FX,
            },
        }
    }

    /// The quad's virtual extent.
    pub fn scale(&self) -> (r: Vec2Fx)
        ensures
            r == self.size,
    {
        self.size
    }

    /// Replaces the quad's crop, as done whenever focus moves or the window
    /// resizes.
    pub fn set_crop(&mut self, crop: CropValues)
        ensures
            final(self).crop == crop,
            final(self).frames.frames() =~= old(self).frames.frames(),
            final(self).displayed == old(self).displayed,
            final(self).size == old(self).size,
    {
        self.crop = crop;
    }

    /// Pulls the newest pending frame onto the texture and drops the rest.
    /// A focused window reads the shared desktop stream so its presentation
    /// follows the live desktop; an unfocused one reads its own stream.
    /// With nothing pending, the texture keeps its old frame.
    pub fn get_draw_texture(&mut self, focused: bool, desktop_frames: &mut FrameQueue)
        ensures
            focused ==> ({
                &&& final(desktop_frames).frames() =~= Seq::<u64>::empty()
                &&& final(self).frames.frames() =~= old(self).frames.frames()
                &&& final(self).displayed == if old(desktop_frames).frames().len() > 0 {
                    Some(old(desktop_frames).frames().last())
                } else {
                    old(self).displayed
                }
            }),
            !focused ==> ({
                &&& final(self).frames.frames() =~= Seq::<u64>::empty()
                &&& final(desktop_frames).frames() =~= old(desktop_frames).frames()
                &&& final(self).displayed == if old(self).frames.frames().len() > 0 {
                    Some(old(self).frames.frames().last())
                } else {
                    old(self).displayed
                }
            }),
            final(self).crop == old(self).crop,
            final(self).size == old(self).size,
    {
        if focused {
            match desktop_frames.drain_latest() {
                Some(frame) => {
                    self.displayed = Some(frame);
                }
                None => {}
            }
        } else {
            match self.frames.drain_latest() {
                Some(frame) => {
                    self.displayed = Some(frame);
                }
                None => {}
            }
        }
    }
}

/// The UV fractions at the four corners of a capture quad built from the
/// crop fractions `(bottom_left, bottom_right, top_left, top_right)`, in
/// the quad's vertex order: lower-left, upper-left, upper-right,
/// lower-right.  The first and third fractions are the U coordinates of the
/// left and right edges; the second and fourth are the V coordinates of the
/// top and bottom edges.
pub fn mesh_corner_uvs(bottom_left: i64, bottom_right: i64, top_left: i64, top_right: i64) -> (r:
    (Vec2Fx, Vec2Fx, Vec2Fx, Vec2Fx))
    ensures
        r.0 == (Vec2Fx { x: bottom_left, y: top_right }),
        r.1 == (Vec2Fx { x: bottom_left, y: bottom_right }),
        r.2 == (Vec2Fx { x: top_left, y: bottom_right }),
        r.3 == (Vec2Fx { x: top_left, y: top_right }),
{
    (
        Vec2Fx { x: bottom_left, y: top_right },
        Vec2Fx { x: bottom_left, y: bottom_right },
        Vec2Fx { x: top_left, y: bottom_right },
        Vec2Fx { x: top_left, y: top_right },
    )
}

/// The crop an unfocused window applies to its own capture, as a value.
pub open spec fn spec_unfocused_crop(size: UVec2) -> CropValues {
    CropValues {
        left: 0,
        right: 0,
        bottom: ((size.x - UNFOCUSED_TRIM_X) * (SCALE as int) / (size.x as int)) as i64,
        top: (size.y * (SCALE as int) / (size.y + UNFOCUSED_PAD_Y)) as i64,
    }
}

/// The crop an unfocused window applies to its own capture: a fixed trim on
/// the right edge and a fixed pad below, hiding capture-edge artifacts.
pub fn unfocused_crop(size: UVec2) -> (r: CropValues)
    requires
        UNFOCUSED_TRIM_X <= size.x <= PIXEL_MAX,
        0 < size.y <= PIXEL_MAX,
    ensures
        r == spec_unfocused_crop(size),
        r.left == 0,
        r.right == 0,
        r.bottom == (size.x - UNFOCUSED_TRIM_X) * (SCALE as int) / (size.x as int),
        r.top == size.y * (SCALE as int) / (size.y + UNFOCUSED_PAD_Y),
{
    let trimmed: i64 = size.x as i64 - UNFOCUSED_TRIM_X as i64;
    proof {
        vstd::arithmetic::div_mod::lemma_div_pos_is_pos(
            trimmed * (SCALE as int),
            size.x as int,
        );
        vstd::arithmetic::div_mod::lemma_div_nonincreasing(
            trimmed * (SCALE as int),
            size.x as int,
        );
        vstd::arithmetic::div_mod::lemma_div_pos_is_pos(
            (size.y as int) * (SCALE as int),
            size.y + UNFOCUSED_PAD_Y,
        );
        vstd::arithmetic::div_mod::lemma_div_nonincreasing(
            (size.y as int) * (SCALE as int),
            size.y + UNFOCUSED_PAD_Y,
        );
    }
    CropValues {
        left: 0,
        right: 0,
        bottom: trimmed * SCALE / (size.x as i64),
        top: (size.y as i64) * SCALE / (size.y as i64 + UNFOCUSED_PAD_Y as i64),
    }
}

/// The crop that shows one window's rectangle out of the desktop capture,
/// as a value.
pub open spec fn spec_crop_values(
    monitor_x: int,
    monitor_y: int,
    monitor_width: int,
    monitor_height: int,
    window_x: int,
    window_y: int,
    window_width: int,
    window_height: int,
) -> CropValues {
    CropValues {
        left: (div_trunc((window_x - monitor_x) * (SCALE as int), monitor_width) + 1) as i64,
        right: (div_trunc(
            (monitor_x + monitor_width - window_x - window_width) * (SCALE as int),
            monitor_width,
        ) + 1) as i64,
        bottom: (SCALE - div_trunc((window_y - monitor_y) * (SCALE as int), monitor_height)
            - 1) as i64,
        top: (SCALE - div_trunc(
            (monitor_y + monitor_height - window_y - window_height) * (SCALE as int),
            monitor_height,
        ) - 1) as i64,
    }
}

/// The crop that shows exactly one window's rectangle out of the monitor's
/// desktop capture, with a one-unit border bias hiding capture edges: how
/// far the window's edges sit from the monitor's, as fractions of the
/// monitor, with the vertical fractions flipped into texture orientation.
pub fn calculate_crop_values(
    monitor_x: i32,
    monitor_y: i32,
    monitor_width: u32,
    monitor_height: u32,
    window_x: i32,
    window_y: i32,
    window_width: u32,
    window_height: u32,
) -> (r: CropValues)
    requires
        -PIXEL_POS_MAX <= monitor_x <= PIXEL_POS_MAX,
        -PIXEL_POS_MAX <= monitor_y <= PIXEL_POS_MAX,
        0 < monitor_width <= PIXEL_MAX,
        0 < monitor_height <= PIXEL_MAX,
        -PIXEL_POS_MAX <= window_x <= PIXEL_POS_MAX,
        -PIXEL_POS_MAX <= window_y <= PIXEL_POS_MAX,
        window_width <= PIXEL_MAX,
        window_height <= PIXEL_MAX,
    ensures
        r == spec_crop_values(
            monitor_x as int,
            monitor_y as int,
            monitor_width as int,
            monitor_height as int,
            window_x as int,
            window_y as int,
            window_width as int,
            window_height as int,
        ),
        r.left == div_trunc((window_x - monitor_x) * (SCALE as int), monitor_width as int) + 1,
        r.right == div_trunc(
            (monitor_x + monitor_width - window_x - window_width) * (SCALE as int),
            monitor_width as int,
        ) + 1,
        r.bottom == SCALE - div_trunc(
            (window_y - monitor_y) * (SCALE as int),
            monitor_height as int,
        ) - 1,
        r.top == SCALE - div_trunc(
            (monitor_y + monitor_height - window_y - window_height) * (SCALE as int),
            monitor_height as int,
        ) - 1,
{
    let crop_left: i64 = div_trunc_i64(
        (window_x as i64 - monitor_x as i64) * SCALE,
        monitor_width as i64,
    ) + 1;
    let crop_right: i64 = div_trunc_i64(
        (monitor_x as i64 + monitor_width as i64 - window_x as i64 - window_width as i64) * SCALE,
        monitor_width as i64,
    ) + 1;
    let crop_bottom: i64 = SCALE - div_trunc_i64(
        (window_y as i64 - monitor_y as i64) * SCALE,
        monitor_height as i64,
    ) - 1;
    let crop_top: i64 = SCALE - div_trunc_i64(
        (monitor_y as i64 + monitor_height as i64 - window_y as i64 - window_height as i64) * SCALE,
        monitor_height as i64,
    ) - 1;
    CropValues { left: crop_left, right: crop_right, bottom: crop_bottom, top: crop_top }
}

} // verus!
