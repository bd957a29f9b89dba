use xcap_sck::DisplayBounds;
use xcap_sck::Frame;
use xcap_sck::PixelFormat;
use xcap_sck::WindowBounds;
use xcap_sck::classify_content_error;
use xcap_sck::plan_monitor_capture;
use xcap_sck::plan_window_capture;
use xcap_sck::resolve_crop;

fn display(display_id: u32, x: i32, y: i32, width: u32, height: u32) -> DisplayBounds {
    DisplayBounds {
        display_id,
        frame: Frame { x, y, width, height },
        width,
        height,
    }
}

#[test]
fn test_plan_monitor_capture_found() {
    let request = plan_monitor_capture(&vec![3, 1, 5], 5, 2560, 1440).unwrap();
    assert_eq!(request.display_id, 5);
    assert_eq!(request.width, 2560);
    assert_eq!(request.height, 1440);
    assert!(request.shows_cursor);
    assert!(request.scales_to_fit);
    assert_eq!(request.pixel_format, PixelFormat::Bgra32);
}

#[test]
fn test_plan_monitor_capture_missing() {
    let err = plan_monitor_capture(&vec![3, 1, 5], 7, 2560, 1440).unwrap_err();
    assert_eq!(err.message(), "Monitor with id 7 not found");
}

#[test]
fn test_plan_window_capture_vanished_window() {
    // A window whose id is no longer present in the live snapshot: the
    // capture reports it missing rather than failing some other way.
    let windows = vec![WindowBounds {
        window_id: 8,
        frame: Frame { x: 10, y: 10, width: 300, height: 200 },
    }];
    let displays = vec![display(1, 0, 0, 2560, 1440)];
    let err = plan_window_capture(&windows, &displays, 42).unwrap_err();
    assert_eq!(err.message(), "Window with id 42 not found");
}

#[test]
fn test_plan_window_capture_no_displays() {
    let windows = vec![WindowBounds {
        window_id: 8,
        frame: Frame { x: 10, y: 10, width: 300, height: 200 },
    }];
    let err = plan_window_capture(&windows, &vec![], 8).unwrap_err();
    assert_eq!(err.message(), "Capture failed: No display found for window");
}

#[test]
fn test_plan_window_capture_owning_display() {
    // The window's origin sits on the second display, so the request is for
    // that display at its native resolution, cursor hidden, unscaled.
    let windows = vec![WindowBounds {
        window_id: 8,
        frame: Frame { x: 2700, y: 50, width: 300, height: 200 },
    }];
    let displays = vec![
        display(1, 0, 0, 2560, 1440),
        display(2, 2560, 0, 1920, 1080),
    ];
    let plan = plan_window_capture(&windows, &displays, 8).unwrap();
    assert_eq!(plan.request.display_id, 2);
    assert_eq!(plan.request.width, 1920);
    assert_eq!(plan.request.height, 1080);
    assert!(!plan.request.shows_cursor);
    assert!(!plan.request.scales_to_fit);
    assert_eq!(plan.display_x, 2560);
    assert_eq!(plan.display_y, 0);
    assert_eq!(plan.window_frame.x, 2700);
}

#[test]
fn test_plan_window_capture_fallback_display() {
    // The window's origin lies on no display; capture degrades to the first
    // enumerated display rather than failing.
    let windows = vec![WindowBounds {
        window_id: 8,
        frame: Frame { x: -5000, y: -5000, width: 300, height: 200 },
    }];
    let displays = vec![
        display(1, 0, 0, 2560, 1440),
        display(2, 2560, 0, 1920, 1080),
    ];
    let plan = plan_window_capture(&windows, &displays, 8).unwrap();
    assert_eq!(plan.request.display_id, 1);
}

#[test]
fn test_resolve_crop_inside() {
    let frame = Frame { x: 100, y: 50, width: 300, height: 200 };
    let crop = resolve_crop(frame, 0, 0, 2560, 1440);
    assert_eq!(crop.x, 100);
    assert_eq!(crop.y, 50);
    assert_eq!(crop.width, 300);
    assert_eq!(crop.height, 200);
}

#[test]
fn test_resolve_crop_clamps_overhang() {
    // The window extends past the display's right and bottom edges; the crop
    // rectangle still fits inside the image.
    let frame = Frame { x: 2400, y: 1300, width: 500, height: 400 };
    let crop = resolve_crop(frame, 0, 0, 2560, 1440);
    assert_eq!(crop.x, 2400);
    assert_eq!(crop.y, 1300);
    assert_eq!(crop.width, 160);
    assert_eq!(crop.height, 140);
    assert!(crop.x + crop.width <= 2560);
    assert!(crop.y + crop.height <= 1440);
}

#[test]
fn test_resolve_crop_stale_frame_left_of_display() {
    // A stale frame left the window origin left of and above its display:
    // the crop origin floors at zero.
    let frame = Frame { x: -40, y: -30, width: 300, height: 200 };
    let crop = resolve_crop(frame, 0, 0, 2560, 1440);
    assert_eq!(crop.x, 0);
    assert_eq!(crop.y, 0);
    assert_eq!(crop.width, 300);
    assert_eq!(crop.height, 200);
}

#[test]
fn test_resolve_crop_origin_past_image() {
    // The window origin lies past the image entirely: the crop pins to the
    // last pixel and keeps inside bounds.
    let frame = Frame { x: 9000, y: 9000, width: 300, height: 200 };
    let crop = resolve_crop(frame, 0, 0, 2560, 1440);
    assert_eq!(crop.x, 2559);
    assert_eq!(crop.y, 1439);
    assert_eq!(crop.width, 1);
    assert_eq!(crop.height, 1);
    assert!(crop.x + crop.width <= 2560);
    assert!(crop.y + crop.height <= 1440);
}

#[test]
fn test_resolve_crop_zero_image() {
    let frame = Frame { x: 10, y: 10, width: 300, height: 200 };
    let crop = resolve_crop(frame, 0, 0, 0, 0);
    assert_eq!(crop.x, 0);
    assert_eq!(crop.y, 0);
    assert_eq!(crop.width, 0);
    assert_eq!(crop.height, 0);
}

#[test]
fn test_classify_content_error_permission() {
    let err = classify_content_error("Error Domain=... permission was refused");
    assert!(err.message().contains("Screen recording permission not granted"));
}

#[test]
fn test_classify_content_error_denied() {
    let err = classify_content_error("access denied by the user");
    assert!(err.message().contains("permission"));
}

#[test]
fn test_classify_content_error_code() {
    let err = classify_content_error("Error Code=-3801 \"declined\"");
    assert!(err.message().contains("permission"));
}

#[test]
fn test_classify_content_error_other() {
    let err = classify_content_error("service unavailable");
    assert_eq!(
        err.message(),
        "Capture failed: Failed to get shareable content: service unavailable"
    );
}
