use xcap_sck::Frame;
use xcap_sck::LockOutcome;
use xcap_sck::Monitor;
use xcap_sck::RawDisplay;
use xcap_sck::RgbaImage;
use xcap_sck::extract_frame;
use xcap_sck::plan_monitor_capture;
use xcap_sck::resolve_crop;

#[test]
fn test_from_raw_exact_size() {
    let image = RgbaImage::from_raw(2, 1, vec![1, 2, 3, 4, 5, 6, 7, 8]).unwrap();
    assert_eq!(image.width(), 2);
    assert_eq!(image.height(), 1);
    assert_eq!(image.into_raw(), vec![1, 2, 3, 4, 5, 6, 7, 8]);
}

#[test]
fn test_from_raw_wrong_size() {
    assert!(RgbaImage::from_raw(2, 1, vec![1, 2, 3, 4]).is_none());
    assert!(RgbaImage::from_raw(1, 1, vec![1, 2, 3, 4, 5]).is_none());
}

#[test]
fn test_crop_copies_pixels() {
    // Four pixels in a row; cropping the middle two keeps their bytes intact.
    let image = RgbaImage::from_raw(
        4,
        1,
        vec![
            10, 11, 12, 13, //
            20, 21, 22, 23, //
            30, 31, 32, 33, //
            40, 41, 42, 43,
        ],
    )
    .unwrap();
    let cropped = image.crop(1, 0, 2, 1);
    assert_eq!(cropped.width(), 2);
    assert_eq!(cropped.height(), 1);
    assert_eq!(cropped.as_raw(), &vec![20, 21, 22, 23, 30, 31, 32, 33]);
}

#[test]
fn test_crop_rectangle() {
    // A three-by-three image with single-valued pixels; the bottom-right two
    // by two block comes out row-major.
    let mut data = Vec::new();
    for p in 1..=9u8 {
        data.extend_from_slice(&[p, p, p, p]);
    }
    let image = RgbaImage::from_raw(3, 3, data).unwrap();
    let cropped = image.crop(1, 1, 2, 2);
    assert_eq!(cropped.as_raw(), &vec![5, 5, 5, 5, 6, 6, 6, 6, 8, 8, 8, 8, 9, 9, 9, 9]);
}

#[test]
fn test_display_capture_round_trip_dimensions() {
    // Capturing a display and reading back the image's dimensions yields the
    // display's own width and height: the request carries the display's
    // dimensions, and extraction of the frame produced at the requested size
    // keeps them.
    let raw = RawDisplay {
        display_id: 1,
        frame: Frame { x: 0, y: 0, width: 4, height: 2 },
        width: 4,
        height: 2,
        physical_width: 8,
        physical_height: 4,
        logical_width: 4,
        logical_height: 2,
    };
    let monitors = Monitor::all(vec![raw]).unwrap();
    let monitor = &monitors[0];
    let request = plan_monitor_capture(
        &vec![monitor.id()],
        monitor.id(),
        monitor.raw_width(),
        monitor.raw_height(),
    )
    .unwrap();
    let stride = (request.width as usize) * 4;
    let frame_bytes = vec![0u8; stride * request.height as usize];
    let outcome = LockOutcome::Acquired {
        base_present: true,
        data: frame_bytes,
        bytes_per_row: stride,
    };
    let image = extract_frame(request.width, request.height, outcome).unwrap();
    assert_eq!(image.width(), monitor.width().unwrap());
    assert_eq!(image.height(), monitor.height().unwrap());
}

#[test]
fn test_window_capture_crop_stays_in_bounds() {
    // A window frame wider than its display: the resolved crop fits the
    // captured image and cropping succeeds.
    let frame = Frame { x: 500, y: 300, width: 400, height: 300 };
    let image_width = 640u32;
    let image_height = 480u32;
    let crop = resolve_crop(frame, 0, 0, image_width, image_height);
    assert!(crop.x + crop.width <= image_width);
    assert!(crop.y + crop.height <= image_height);
    let data = vec![7u8; (image_width * image_height * 4) as usize];
    let image = RgbaImage::from_raw(image_width, image_height, data).unwrap();
    let cropped = image.crop(crop.x, crop.y, crop.width, crop.height);
    assert_eq!(cropped.width(), crop.width);
    assert_eq!(cropped.height(), crop.height);
}
