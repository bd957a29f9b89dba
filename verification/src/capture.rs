//! Planning of single-frame capture requests and window cropping.
//!
//! A capture request is always scoped to one whole display; a window is
//! isolated afterwards by cropping the full-display image, because per-window
//! capture filters are unreliable for arbitrary window types. The planner
//! decides, from snapshots of the live window and display sets, which display
//! to capture and at what configuration; the crop resolver translates a
//! window's global frame into display-local pixel coordinates, clamped to the
//! captured image's bounds.

use vstd::prelude::*;

use crate::error::XCapError;
use crate::error::XCapResult;
use crate::error::capture_failed_message;
use crate::error::monitor_not_found_message;
use crate::error::permission_denied_message;
use crate::error::window_not_found_message;
use crate::monitor::Monitor;
use crate::rgba::RgbaImage;
use crate::text::spec_contains;
use crate::text::str_contains;

verus! {

/// A rectangle in the global logical coordinate space: origin and size.
#[derive(Debug, Clone, Copy, PartialEq, Eq, Structural)]
pub struct Frame {
    /// Leftmost column, may be negative for surfaces left of the primary display.
    pub x: i32,
    /// Topmost row, may be negative for surfaces above the primary display.
    pub y: i32,
    /// Width in pixels.
    pub width: u32,
    /// Height in pixels.
    pub height: u32,
}

/// The point lies inside the frame.
pub open spec fn frame_contains_point(f: Frame, px: int, py: int) -> bool {
    &&& f.x <= px < f.x + f.width
    &&& f.y <= py < f.y + f.height
}

/// Whether the point lies inside the frame.
pub fn frame_contains(f: Frame, px: i32, py: i32) -> (r: bool)
    ensures
        r == frame_contains_point(f, px as int, py as int),
{
    px >= f.x && py >= f.y && (px as i64) < (f.x as i64) + (f.width as i64) && (py as i64) < (
    f.y as i64) + (f.height as i64)
}

/// A display as reported by the composition service at capture time: its
/// identity, its frame in global coordinates, and the capture dimensions the
/// service expects frame requests to use.
#[derive(Debug, Clone, Copy, PartialEq, Eq, Structural)]
pub struct DisplayBounds {
    /// Platform display id.
    pub display_id: u32,
    /// Frame in the global logical coordinate space.
    pub frame: Frame,
    /// Capture width the service reports for this display.
    pub width: u32,
    /// Capture height the service reports for this display.
    pub height: u32,
}

/// A window as reported by the composition service at capture time.
#[derive(Debug, Clone, Copy, PartialEq, Eq, Structural)]
pub struct WindowBounds {
    /// Platform window id.
    pub window_id: u32,
    /// Frame in the global logical coordinate space.
    pub frame: Frame,
}

/// Pixel format requested from the composition service. Only packed 32-bit
/// BGRA is ever used: extraction depends on that layout.
#[derive(Debug, Clone, Copy, PartialEq, Eq, Structural)]
pub enum PixelFormat {
    /// Packed 32-bit BGRA.
    Bgra32,
}

/// One single-frame capture request: which display to capture and how.
#[derive(Debug, Clone, Copy, PartialEq, Eq, Structural)]
pub struct CaptureRequest {
    /// Display to scope the content filter to, excluding no windows.
    pub display_id: u32,
    /// Requested frame width.
    pub width: u32,
    /// Requested frame height.
    pub height: u32,
    /// Whether the cursor is composited into the frame.
    pub shows_cursor: bool,
    /// Whether the service scales the frame to the requested size.
    pub scales_to_fit: bool,
    /// Requested pixel format.
    pub pixel_format: PixelFormat,
}

/// The request issued for a full-display capture: the display's own reported
/// dimensions, cursor shown, scaled to fit so the frame matches the reported
/// size exactly.
pub open spec fn spec_monitor_request(display_id: u32, width: u32, height: u32) -> CaptureRequest {
    CaptureRequest {
        display_id,
        width,
        height,
        shows_cursor: true,
        scales_to_fit: true,
        pixel_format: PixelFormat::Bgra32,
    }
}

/// The request issued when capturing a window: the whole owning display at
/// its native resolution, cursor hidden, no scaling, so the crop that follows
/// works on unscaled pixels.
pub open spec fn spec_window_request(display: DisplayBounds) -> CaptureRequest {
    CaptureRequest {
        display_id: display.display_id,
        width: display.width,
        height: display.height,
        shows_cursor: false,
        scales_to_fit: false,
        pixel_format: PixelFormat::Bgra32,
    }
}

/// Plan a full-display capture: the display must still be present in the
/// live display set, and the request then carries exactly the dimensions
/// asked for.
pub fn plan_monitor_capture(display_ids: &Vec<u32>, monitor_id: u32, width: u32, height: u32) -> (r:
    XCapResult<CaptureRequest>)
    ensures
        r is Ok <==> display_ids@.contains(monitor_id),
        r is Ok ==> r->Ok_0 == spec_monitor_request(monitor_id, width, height),
        r is Err ==> {
            &&& r->Err_0.spec_message() == monitor_not_found_message(monitor_id)
            &&& r->Err_0.spec_source() is None
        },
{
    let n: usize = display_ids.len();
    let mut i: usize = 0;
    while i < n
        invariant
            n == display_ids@.len(),
            i <= n,
            forall|k: int| 0 <= k < i ==> display_ids@[k] != monitor_id,
        decreases n - i,
    {
        if display_ids[i] == monitor_id {
            return Ok(
                CaptureRequest {
                    display_id: monitor_id,
                    width,
                    height,
                    shows_cursor: true,
                    scales_to_fit: true,
                    pixel_format: PixelFormat::Bgra32,
                },
            );
        }
        i = i + 1;
    }
    proof {
        assert(!display_ids@.contains(monitor_id));
    }
    Err(XCapError::monitor_not_found(monitor_id))
}

/// The first window in the snapshot with the given id.
pub open spec fn spec_find_window(windows: Seq<WindowBounds>, window_id: u32) -> Option<
    WindowBounds,
>
    decreases windows.len(),
{
    if windows.len() == 0 {
        None
    } else if windows[0].window_id == window_id {
        Some(windows[0])
    } else {
        spec_find_window(windows.drop_first(), window_id)
    }
}

proof fn lemma_find_window_at(windows: Seq<WindowBounds>, window_id: u32, i: int)
    requires
        0 <= i < windows.len(),
        windows[i].window_id == window_id,
        forall|k: int| 0 <= k < i ==> windows[k].window_id != window_id,
    ensures
        spec_find_window(windows, window_id) == Some(windows[i]),
    decreases i,
{
    if i == 0 {
    } else {
        lemma_find_window_at(windows.drop_first(), window_id, i - 1);
    }
}

proof fn lemma_find_window_none(windows: Seq<WindowBounds>, window_id: u32)
    requires
        forall|k: int| 0 <= k < windows.len() ==> windows[k].window_id != window_id,
    ensures
        spec_find_window(windows, window_id) is None,
    decreases windows.len(),
{
    if windows.len() > 0 {
        lemma_find_window_none(windows.drop_first(), window_id);
    }
}

/// The first display whose frame contains the point.
pub open spec fn spec_first_containing(displays: Seq<DisplayBounds>, px: int, py: int) -> Option<
    DisplayBounds,
>
    decreases displays.len(),
{
    if displays.len() == 0 {
        None
    } else if frame_contains_point(displays[0].frame, px, py) {
        Some(displays[0])
    } else {
        spec_first_containing(displays.drop_first(), px, py)
    }
}

/// The display that owns a window whose origin is at the point: the first
/// display containing the point, else the first display enumerated. `None`
/// only when there are no displays at all.
pub open spec fn spec_owning_display(displays: Seq<DisplayBounds>, px: int, py: int) -> Option<
    DisplayBounds,
> {
    match spec_first_containing(displays, px, py) {
        Some(d) => Some(d),
        None => if displays.len() > 0 {
            Some(displays[0])
        } else {
            None
        },
    }
}

proof fn lemma_first_containing_at(displays: Seq<DisplayBounds>, px: int, py: int, i: int)
    requires
        0 <= i < displays.len(),
        frame_contains_point(displays[i].frame, px, py),
        forall|k: int| 0 <= k < i ==> !frame_contains_point(displays[k].frame, px, py),
    ensures
        spec_first_containing(displays, px, py) == Some(displays[i]),
    decreases i,
{
    if i == 0 {
    } else {
        lemma_first_containing_at(displays.drop_first(), px, py, i - 1);
    }
}

proof fn lemma_first_containing_none(displays: Seq<DisplayBounds>, px: int, py: int)
    requires
        forall|k: int|
            0 <= k < displays.len() ==> !frame_contains_point(displays[k].frame, px, py),
    ensures
        spec_first_containing(displays, px, py) is None,
    decreases displays.len(),
{
    if displays.len() > 0 {
        lemma_first_containing_none(displays.drop_first(), px, py);
    }
}

/// Everything decided before a window capture is issued: the request against
/// the owning display, the window's frame, and the owning display's origin
/// for the crop that follows.
#[derive(Debug, Clone, Copy, PartialEq, Eq, Structural)]
pub struct WindowCapturePlan {
    /// Request for the full owning display.
    pub request: CaptureRequest,
    /// The window's frame in global coordinates.
    pub window_frame: Frame,
    /// The owning display's leftmost column in global coordinates.
    pub display_x: i32,
    /// The owning display's topmost row in global coordinates.
    pub display_y: i32,
}

/// Plan a window capture from snapshots of the live window and display sets.
///
/// The window must still be present, else the capture fails with the
/// window-not-found error; the owning display is the first whose frame
/// contains the window's origin, else the first display; with no displays at
/// all the capture fails.
pub fn plan_window_capture(
    windows: &Vec<WindowBounds>,
    displays: &Vec<DisplayBounds>,
    window_id: u32,
) -> (r: XCapResult<WindowCapturePlan>)
    ensures
        r is Ok <==> (spec_find_window(windows@, window_id) is Some && displays@.len() > 0),
        spec_find_window(windows@, window_id) is None ==> {
            &&& r is Err
            &&& r->Err_0.spec_message() == window_not_found_message(window_id)
            &&& r->Err_0.spec_source() is None
        },
        spec_find_window(windows@, window_id) is Some && displays@.len() == 0 ==> {
            &&& r is Err
            &&& r->Err_0.spec_message() == capture_failed_message("No display found for window"@)
            &&& r->Err_0.spec_source() is None
        },
        r is Ok ==> {
            let w = spec_find_window(windows@, window_id)->0;
            let d = spec_owning_display(displays@, w.frame.x as int, w.frame.y as int)->0;
            &&& r->Ok_0.request == spec_window_request(d)
            &&& r->Ok_0.window_frame == w.frame
            &&& r->Ok_0.display_x == d.frame.x
            &&& r->Ok_0.display_y == d.frame.y
        },
{
    let wn: usize = windows.len();
    let mut wi: usize = 0;
    while wi < wn && windows[wi].window_id != window_id
        invariant
            wn == windows@.len(),
            wi <= wn,
            forall|k: int| 0 <= k < wi ==> windows@[k].window_id != window_id,
        decreases wn - wi,
    {
        wi = wi + 1;
    }
    if wi == wn {
        proof {
            lemma_find_window_none(windows@, window_id);
        }
        return Err(XCapError::window_not_found(window_id));
    }
    let window = windows[wi];
    proof {
        lemma_find_window_at(windows@, window_id, wi as int);
    }
    let wx = window.frame.x;
    let wy = window.frame.y;
    let dn: usize = displays.len();
    if dn == 0 {
        return Err(XCapError::capture_failed("No display found for window"));
    }
    let mut di: usize = 0;
    while di < dn && !frame_contains(displays[di].frame, wx, wy)
        invariant
            dn == displays@.len(),
            di <= dn,
            forall|k: int|
                0 <= k < di ==> !frame_contains_point(displays@[k].frame, wx as int, wy as int),
        decreases dn - di,
    {
        di = di + 1;
    }
    let display = if di < dn {
        proof {
            lemma_first_containing_at(displays@, wx as int, wy as int, di as int);
        }
        displays[di]
    } else {
        proof {
            lemma_first_containing_none(displays@, wx as int, wy as int);
        }
        displays[0]
    };
    Ok(
        WindowCapturePlan {
            request: CaptureRequest {
                display_id: display.display_id,
                width: display.width,
                height: display.height,
                shows_cursor: false,
                scales_to_fit: false,
                pixel_format: PixelFormat::Bgra32,
            },
            window_frame: window.frame,
            display_x: display.frame.x,
            display_y: display.frame.y,
        },
    )
}

/// A crop rectangle in captured-image pixel coordinates.
#[derive(Debug, Clone, Copy, PartialEq, Eq, Structural)]
pub struct CropRect {
    /// Leftmost column.
    pub x: u32,
    /// Topmost row.
    pub y: u32,
    /// Width in pixels.
    pub width: u32,
    /// Height in pixels.
    pub height: u32,
}

/// The crop origin along one axis: the window origin translated into
/// display-local coordinates, floored at zero, then clamped to the last
/// pixel of the captured image.
pub open spec fn spec_crop_start(window_pos: int, display_pos: int, image_dim: int) -> int {
    let raw = if window_pos - display_pos < 0 {
        0
    } else {
        window_pos - display_pos
    };
    let limit = if image_dim > 0 {
        image_dim - 1
    } else {
        0
    };
    if raw < limit {
        raw
    } else {
        limit
    }
}

/// The crop size along one axis: the window's size, clamped to what remains
/// of the captured image from the crop origin.
pub open spec fn spec_crop_extent(window_dim: int, start: int, image_dim: int) -> int {
    let avail = if image_dim - start < 0 {
        0
    } else {
        image_dim - start
    };
    if window_dim < avail {
        window_dim
    } else {
        avail
    }
}

/// Resolve the pixel rectangle that isolates a window inside a full-display
/// capture. The rectangle always fits inside the image, even when the
/// window's raw frame extends past the display or the frame is stale.
pub fn resolve_crop(
    window_frame: Frame,
    display_x: i32,
    display_y: i32,
    image_width: u32,
    image_height: u32,
) -> (r: CropRect)
    ensures
        r.x == spec_crop_start(window_frame.x as int, display_x as int, image_width as int),
        r.y == spec_crop_start(window_frame.y as int, display_y as int, image_height as int),
        r.width == spec_crop_extent(window_frame.width as int, r.x as int, image_width as int),
        r.height == spec_crop_extent(window_frame.height as int, r.y as int, image_height as int),
        r.x + r.width <= image_width,
        r.y + r.height <= image_height,
{
    let x = clamp_start(window_frame.x, display_x, image_width);
    let y = clamp_start(window_frame.y, display_y, image_height);
    let width = clamp_extent(window_frame.width, x, image_width);
    let height = clamp_extent(window_frame.height, y, image_height);
    CropRect { x, y, width, height }
}

/// One axis of the crop origin.
fn clamp_start(window_pos: i32, display_pos: i32, image_dim: u32) -> (r: u32)
    ensures
        r == spec_crop_start(window_pos as int, display_pos as int, image_dim as int),
        image_dim > 0 ==> r < image_dim,
        image_dim == 0 ==> r == 0,
{
    let diff: i64 = (window_pos as i64) - (display_pos as i64);
    let raw: u32 = if diff < 0 {
        0
    } else {
        diff as u32
    };
    let limit: u32 = if image_dim > 0 {
        image_dim - 1
    } else {
        0
    };
    if raw < limit {
        raw
    } else {
        limit
    }
}

/// One axis of the crop size.
fn clamp_extent(window_dim: u32, start: u32, image_dim: u32) -> (r: u32)
    ensures
        r == spec_crop_extent(window_dim as int, start as int, image_dim as int),
{
    let avail: u32 = if image_dim < start {
        0
    } else {
        image_dim - start
    };
    if window_dim < avail {
        window_dim
    } else {
        avail
    }
}

/// Law: a full-display capture round-trips the display's dimensions.
///
/// The request planned for a monitor carries the monitor's own capture width
/// and height, and extraction yields an image with exactly the dimensions
/// the locked buffer's metadata reported. The composition service returns
/// the frame at the requested size (the request asks it to scale to fit),
/// so an image extracted from such a frame has exactly the monitor's
/// dimensions.
pub proof fn lemma_display_capture_round_trip(
    m: Monitor,
    request: CaptureRequest,
    extraction: XCapResult<RgbaImage>,
)
    requires
        request == spec_monitor_request(m.spec_id(), m.spec_width(), m.spec_height()),
        extraction is Ok,
        extraction->Ok_0.spec_width() == request.width,
        extraction->Ok_0.spec_height() == request.height,
    ensures
        extraction->Ok_0.spec_width() == m.spec_width(),
        extraction->Ok_0.spec_height() == m.spec_height(),
{
}

/// Classify the composition service's content-query failure by its textual
/// description: the platform exposes no structured permission error, so a
/// description mentioning permission, denial, or the well-known permission
/// error code is reported as the permission error; anything else is a
/// capture failure carrying the description.
pub fn classify_content_error(description: &str) -> (e: XCapError)
    ensures
        e.spec_source() is None,
        spec_contains(description@, "permission"@) || spec_contains(description@, "denied"@)
            || spec_contains(description@, "-3801"@) ==> e.spec_message()
            == permission_denied_message(),
        !(spec_contains(description@, "permission"@) || spec_contains(description@, "denied"@)
            || spec_contains(description@, "-3801"@)) ==> e.spec_message()
            == capture_failed_message("Failed to get shareable content: "@ + description@),
{
    if str_contains(description, "permission") || str_contains(description, "denied")
        || str_contains(description, "-3801") {
        XCapError::permission_denied()
    } else {
        let mut details = String::from_str("Failed to get shareable content: ");
        details.append(description);
        XCapError::capture_failed(details.as_str())
    }
}

} // verus!
