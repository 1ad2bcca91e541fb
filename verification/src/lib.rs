//! Verified core of a mixed-reality virtual desktop: the window manager,
//! input-remapping state machine, and the coordinate-mapping arithmetic that
//! connect a curved virtual surface to real on-screen window rectangles.
//!
//! Continuous quantities (virtual-surface coordinates, crop fractions, aspect
//! ratios, angles) are held as fixed-point integers so that every formula has
//! an exact contract; the trigonometric projection onto the surface and all
//! operating-system and GPU work stay outside this crate and hand plain
//! values in.

mod capture;
mod input;
mod internal_mouse;
mod internal_window;
mod mapping;
mod scripts;
mod virtual_mouse;
mod values;
mod virtual_desktop;
mod virtual_window;

pub use capture::calculate_crop_values;
pub use capture::mesh_corner_uvs;
pub use capture::unfocused_crop;
pub use capture::CropValues;
pub use capture::FrameQueue;
pub use capture::WindowCapture;
pub use capture::UNFOCUSED_PAD_Y;
pub use capture::UNFOCUSED_TRIM_X;
pub use capture::WINDOW_SCALE_FX;
pub use input::InputState;
pub use input::Key;
pub use input::KeyEvent;
pub use input::KeyboardMouseState;
pub use input::KEY_COUNT;
pub use internal_mouse::cursor_in_range;
pub use internal_mouse::IMouse;
pub use internal_window::FakeMonitor;
pub use internal_window::IWindow;
pub use internal_window::MoveCommand;
pub use internal_window::Rect;
pub use internal_window::RectError;
pub use internal_window::normalize_position;
pub use internal_window::real_rect_inset;
pub use internal_window::FRAME_INSET_RIGHT;
pub use internal_window::FRAME_INSET_TOP;
pub use internal_window::rect_size;
pub use internal_window::PARK_PADDING;
pub use internal_window::PIXEL_POS_MAX;
pub use internal_window::RATIO_FX_MAX;

pub use mapping::lemma_round_trip;
pub use mapping::TestWindow;
pub use scripts::ScriptType;
pub use virtual_desktop::aspect_step;
pub use virtual_desktop::captured_outside_rect;
pub use virtual_desktop::classify_hit;
pub use virtual_desktop::face_user_orientation;
pub use virtual_desktop::hit_pixel;
pub use virtual_desktop::is_invalid_window;
pub use virtual_desktop::lemma_grab_capture_exclusive;
pub use virtual_desktop::pick_monitor;
pub use virtual_desktop::region_cursor;
pub use virtual_desktop::seq_contains;
pub use virtual_desktop::seq_contains_at;
pub use virtual_desktop::spec_classify_hit;
pub use virtual_desktop::spec_monitor_matches;
pub use virtual_desktop::spec_outside_rect;
pub use virtual_desktop::str_contains;
pub use virtual_desktop::HitRegion;
pub use virtual_desktop::ASPECT_STEP_FX;
pub use virtual_desktop::CAPTURE_BORDER;
pub use virtual_desktop::CAPTURE_BORDER_EXTRA_Y;
pub use virtual_desktop::HIT_MARGIN_FX;
pub use virtual_desktop::VDesktop;
pub use virtual_desktop::DELAY_TICKS;
pub use virtual_desktop::MONITOR_WIDTH;
pub use virtual_window::grab_bar_geometry;
pub use virtual_window::DrawStep;
pub use virtual_window::GRAB_BAR_HEIGHT_FX;
pub use virtual_window::IsWindowValid;
pub use virtual_window::PoseFx;
pub use virtual_window::VWindow;
pub use virtual_mouse::advance_cylindrical;
pub use virtual_mouse::advance_spherical;
pub use virtual_mouse::drop_after_spherical;
pub use virtual_mouse::lemma_mode_offset_cancels;
pub use virtual_mouse::lemma_wrap_keeps_direction;
pub use virtual_mouse::lift_for_spherical;
pub use virtual_mouse::wrap_angle;
pub use virtual_mouse::wrap_angle_spec;
pub use virtual_mouse::CursorMode;
pub use virtual_mouse::CursorType;
pub use virtual_mouse::ResizeType;
pub use virtual_mouse::VMouse;
pub use virtual_mouse::ANGLE_FX_MAX;
pub use virtual_mouse::CURSOR_MODE_Y_FX;
pub use virtual_mouse::POLAR_LIMIT_FX;
pub use virtual_mouse::SPHERE_LIFT_FX;
pub use virtual_mouse::TWO_PI_FX;
pub use virtual_mouse::X_SENSITIVITY;
pub use virtual_mouse::Y_SENSITIVITY;
pub use mapping::COORD_FX_MAX;
pub use mapping::PIXEL_MAX;
pub use mapping::SIZE_FX_MAX;
pub use values::IVec2;
pub use values::QuatFx;
pub use values::UVec2;
pub use values::Vec2Fx;
pub use values::Vec3Fx;
pub use values::SCALE;
pub use values::div_trunc;
pub use values::div_trunc_i64;
