//! Enumeration and still-image capture of on-screen surfaces.
//!
//! The library reconciles display and window metadata from two independent
//! platform query surfaces into one consistent model, plans single-frame
//! capture requests against the platform's screen-composition service, and
//! converts the resulting native pixel buffers into portable RGBA images.
//! The platform calls themselves (content queries, frame requests, buffer
//! locking, encoding) live outside the library; everything here works on the
//! plain values those calls produce and is specified by contracts.

use vstd::prelude::*;

mod capture;
mod error;
mod extract;
mod monitor;
mod rgba;
mod text;
mod window;

pub use capture::CaptureRequest;
pub use capture::CropRect;
pub use capture::DisplayBounds;
pub use capture::Frame;
pub use capture::PixelFormat;
pub use capture::WindowBounds;
pub use capture::WindowCapturePlan;
pub use capture::classify_content_error;
pub use capture::lemma_display_capture_round_trip;
pub use capture::plan_monitor_capture;
pub use capture::plan_window_capture;
pub use capture::resolve_crop;
pub use error::XCapError;
pub use error::XCapResult;
pub use extract::BufferLayout;
pub use extract::LockOutcome;
pub use extract::buffer_layout;
pub use extract::extract_frame;
pub use monitor::Monitor;
pub use monitor::RawDisplay;
pub use rgba::RgbaImage;
pub use text::str_contains;
pub use text::u32_to_decimal;
pub use window::CgWindowRecord;
pub use window::RawWindow;
pub use window::Window;
pub use window::lemma_surviving_min_size;

verus! {

/// Whether the screen-composition service needed for capture is available.
pub fn is_supported() -> (r: bool)
    ensures
        r,
{
    true
}

} // verus!
