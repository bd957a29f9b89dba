use xcap_sck::Frame;
use xcap_sck::Monitor;
use xcap_sck::RawDisplay;

fn raw_display(display_id: u32, x: i32, y: i32, width: u32, height: u32) -> RawDisplay {
    RawDisplay {
        display_id,
        frame: Frame { x, y, width, height },
        width,
        height,
        physical_width: width,
        physical_height: height,
        logical_width: width,
        logical_height: height,
    }
}

#[test]
fn test_monitor_getters() {
    let monitor = Monitor::new(
        1,
        "Test Display",
        0,
        0,
        3840, // Physical pixels (4K)
        2160,
        1920, // Logical pixels (what UI sees)
        1080,
        2000,
        true,
    );

    assert_eq!(monitor.id(), 1);
    assert_eq!(monitor.name(), "Test Display");
    assert_eq!(monitor.x(), 0);
    assert_eq!(monitor.y(), 0);
    assert_eq!(monitor.width().unwrap(), 3840);
    assert_eq!(monitor.height().unwrap(), 2160);
    assert_eq!(monitor.raw_width(), 3840);
    assert_eq!(monitor.raw_height(), 2160);
    assert_eq!(monitor.logical_width(), 1920);
    assert_eq!(monitor.logical_height(), 1080);
    assert_eq!(monitor.scale_factor(), 2000);
    assert!(monitor.is_primary());
}

#[test]
fn test_monitor_all() {
    // This test verifies the API works
    let result = Monitor::all(vec![]);
    let _ = result;
}

#[test]
fn test_monitor_all_empty_is_no_monitors() {
    let err = Monitor::all(vec![]).unwrap_err();
    assert_eq!(err.message(), "No monitors found");
}

#[test]
fn test_monitor_all_two_displays_primary_at_origin() {
    // One display at the origin sized 2560 by 1440 and a second to its right
    // sized 1920 by 1080: the first is primary, the second is not.
    let monitors = Monitor::all(vec![
        raw_display(1, 0, 0, 2560, 1440),
        raw_display(2, 2560, 0, 1920, 1080),
    ])
    .unwrap();
    assert_eq!(monitors.len(), 2);
    assert!(monitors[0].is_primary());
    assert!(!monitors[1].is_primary());
    assert_eq!(monitors[0].raw_width(), 2560);
    assert_eq!(monitors[0].raw_height(), 1440);
    assert_eq!(monitors[1].x(), 2560);
}

#[test]
fn test_monitor_all_exactly_one_primary() {
    // No display sits at the origin: the first enumerated is primary, and it
    // is the only one.
    let monitors = Monitor::all(vec![
        raw_display(1, 100, 100, 800, 600),
        raw_display(2, 900, 100, 800, 600),
        raw_display(3, -800, 0, 800, 600),
    ])
    .unwrap();
    let primaries = monitors.iter().filter(|m| m.is_primary()).count();
    assert_eq!(primaries, 1);
    assert!(monitors[0].is_primary());
}

#[test]
fn test_monitor_all_synthesizes_names() {
    let monitors = Monitor::all(vec![raw_display(69733382, 0, 0, 1440, 900)]).unwrap();
    assert_eq!(monitors[0].name(), "Display 69733382");
}

#[test]
fn test_monitor_scale_factor_retina() {
    // Physical pixels twice the capture dimensions on both axes: scale
    // factor two, stored in thousandths.
    let mut d = raw_display(1, 0, 0, 1440, 900);
    d.physical_width = 2880;
    d.physical_height = 1800;
    let monitors = Monitor::all(vec![d]).unwrap();
    assert_eq!(monitors[0].scale_factor(), 2000);
}

#[test]
fn test_monitor_scale_factor_floored_at_one() {
    // Physical pixels below the capture dimensions still report a scale
    // factor of at least one.
    let mut d = raw_display(1, 0, 0, 1440, 900);
    d.physical_width = 720;
    d.physical_height = 450;
    let monitors = Monitor::all(vec![d]).unwrap();
    assert_eq!(monitors[0].scale_factor(), 1000);
}

#[test]
fn test_monitor_scale_factor_zero_capture_dims() {
    let mut d = raw_display(1, 0, 0, 0, 0);
    d.physical_width = 2880;
    d.physical_height = 1800;
    let monitors = Monitor::all(vec![d]).unwrap();
    assert_eq!(monitors[0].scale_factor(), 1000);
}

#[test]
fn test_monitor_scale_factor_averages_axes() {
    // Width ratio 1.5, height ratio 2.0: the average is 1.75.
    let mut d = raw_display(1, 0, 0, 1000, 1000);
    d.physical_width = 1500;
    d.physical_height = 2000;
    let monitors = Monitor::all(vec![d]).unwrap();
    assert_eq!(monitors[0].scale_factor(), 1750);
}

#[test]
fn test_monitor_primary() {
    let primary = Monitor::primary(vec![
        raw_display(1, -800, 0, 800, 600),
        raw_display(2, 0, 0, 2560, 1440),
    ])
    .unwrap();
    assert_eq!(primary.id(), 2);
    assert!(primary.is_primary());
}

#[test]
fn test_monitor_primary_empty_is_no_monitors() {
    let err = Monitor::primary(vec![]).unwrap_err();
    assert_eq!(err.message(), "No monitors found");
}
