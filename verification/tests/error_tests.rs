use xcap_sck::XCapError;

#[test]
fn test_error_display() {
    let err = XCapError::new("test error");
    assert_eq!(err.message(), "test error");
}

#[test]
fn test_error_with_source() {
    let io_err = std::io::Error::new(std::io::ErrorKind::NotFound, "file not found");
    let err = XCapError::with_source("failed to read", &io_err.to_string());
    assert!(err.message().contains("failed to read"));
    assert!(err.source().is_some());
}

#[test]
fn test_permission_denied() {
    let err = XCapError::permission_denied();
    assert!(err.message().contains("permission"));
}

#[test]
fn test_from_string() {
    let err: XCapError = "test error".into();
    assert_eq!(err.message(), "test error");
}

#[test]
fn test_from_owned_string() {
    let err: XCapError = String::from("another error").into();
    assert_eq!(err.message(), "another error");
}

#[test]
fn test_error_message_renders_source() {
    let err = XCapError::with_source("failed to read", "file not found");
    assert_eq!(err.message(), "failed to read: file not found");
    assert_eq!(err.source().unwrap(), "file not found");
}

#[test]
fn test_error_without_source() {
    let err = XCapError::new("plain");
    assert!(err.source().is_none());
}

#[test]
fn test_no_windows_message() {
    assert_eq!(XCapError::no_windows().message(), "No windows found");
}

#[test]
fn test_no_monitors_message() {
    assert_eq!(XCapError::no_monitors().message(), "No monitors found");
}

#[test]
fn test_capture_failed_message() {
    let err = XCapError::capture_failed("something broke");
    assert_eq!(err.message(), "Capture failed: something broke");
}

#[test]
fn test_window_not_found_message() {
    let err = XCapError::window_not_found(42);
    assert_eq!(err.message(), "Window with id 42 not found");
}

#[test]
fn test_monitor_not_found_message() {
    let err = XCapError::monitor_not_found(7);
    assert_eq!(err.message(), "Monitor with id 7 not found");
}
