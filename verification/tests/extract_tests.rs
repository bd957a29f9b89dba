use xcap_sck::BufferLayout;
use xcap_sck::LockOutcome;
use xcap_sck::buffer_layout;
use xcap_sck::extract_frame;

fn acquired(data: Vec<u8>, bytes_per_row: usize) -> LockOutcome {
    LockOutcome::Acquired { base_present: true, data, bytes_per_row }
}

#[test]
fn test_buffer_layout() {
    assert_eq!(buffer_layout(0), BufferLayout::Packed);
    assert_eq!(buffer_layout(1), BufferLayout::Planar);
    assert_eq!(buffer_layout(3), BufferLayout::Planar);
}

#[test]
fn test_extract_swaps_bgra_to_rgba() {
    // Two by two pixels of known BGRA values: each output pixel must hold
    // the same bytes reordered to red, green, blue, alpha.
    let data = vec![
        1, 2, 3, 4, 5, 6, 7, 8, // row 0: [B G R A] [B G R A]
        9, 10, 11, 12, 13, 14, 15, 16, // row 1
    ];
    let image = extract_frame(2, 2, acquired(data, 8)).unwrap();
    assert_eq!(image.width(), 2);
    assert_eq!(image.height(), 2);
    assert_eq!(
        image.as_raw(),
        &vec![3, 2, 1, 4, 7, 6, 5, 8, 11, 10, 9, 12, 15, 14, 13, 16]
    );
}

#[test]
fn test_extract_honours_stride_padding() {
    // A stride wider than four bytes per pixel: the padding bytes are never
    // read into the output.
    let data = vec![
        1, 2, 3, 4, 200, 200, // row 0: one pixel, two padding bytes
        5, 6, 7, 8, 200, 200, // row 1
    ];
    let image = extract_frame(1, 2, acquired(data, 6)).unwrap();
    assert_eq!(image.as_raw(), &vec![3, 2, 1, 4, 7, 6, 5, 8]);
}

#[test]
fn test_extract_short_buffer_fails() {
    // The metadata promises two rows of two pixels but the buffer holds
    // less: the undersized output is rejected, not returned.
    let data = vec![0u8; 12];
    let err = extract_frame(2, 2, acquired(data, 8)).unwrap_err();
    assert_eq!(err.message(), "Capture failed: Failed to create image from buffer");
}

#[test]
fn test_extract_lock_failure() {
    // A failed buffer lock is terminal for the capture attempt and yields no
    // partial image.
    let outcome = LockOutcome::Failed { detail: "kCVReturnInvalidArgument".to_string() };
    let err = extract_frame(2, 2, outcome).unwrap_err();
    assert_eq!(
        err.message(),
        "Capture failed: Failed to lock pixel buffer: kCVReturnInvalidArgument"
    );
}

#[test]
fn test_extract_null_base_address() {
    let outcome = LockOutcome::Acquired { base_present: false, data: vec![], bytes_per_row: 0 };
    let err = extract_frame(2, 2, outcome).unwrap_err();
    assert_eq!(err.message(), "Capture failed: Pixel buffer base address is null");
}

#[test]
fn test_extract_empty_frame() {
    let image = extract_frame(0, 0, acquired(vec![], 0)).unwrap();
    assert_eq!(image.width(), 0);
    assert_eq!(image.height(), 0);
    assert!(image.as_raw().is_empty());
}
