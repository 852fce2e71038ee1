use garlock::monitors::{edges_fit_for, wants_crtc, CrtcGeometry, MonitorConfig, OutputReport};

fn report(output: u32, name: &str, x: i16, width: u16, mode: u32) -> OutputReport {
    OutputReport {
        output,
        name: name.to_string(),
        connected: true,
        crtc: 1,
        geometry: Some(CrtcGeometry { x, y: 0, width, height: 1080, mode }),
    }
}

#[test]
fn skips_outputs_that_show_nothing() {
    let mut off = report(3, "DP-2", 0, 800, 1);
    off.connected = false;
    let mut no_crtc = report(4, "DP-3", 0, 800, 1);
    no_crtc.crtc = 0;
    let mut unread = report(5, "DP-4", 0, 800, 1);
    unread.geometry = None;
    let outputs = vec![report(1, "eDP-1", 0, 1920, 7), off, no_crtc, unread, report(6, "HDMI-1", 1920, 1280, 0)];
    let c = MonitorConfig::from_outputs(outputs, 99);
    assert_eq!(c.monitors.len(), 1);
    assert_eq!(c.monitors[0].name, "eDP-1");
    assert!(c.is_single_monitor());
    assert!(!wants_crtc(false, 1));
    assert!(!wants_crtc(true, 0));
    assert!(wants_crtc(true, 2));
}

#[test]
fn primary_first_then_left_to_right() {
    let outputs = vec![
        report(1, "right", 3840, 1920, 1),
        report(2, "left", 0, 1920, 1),
        report(3, "primary", 1920, 1920, 1),
        report(4, "left-twin", 0, 1920, 1),
    ];
    let c = MonitorConfig::from_outputs(outputs, 3);
    let names: Vec<&str> = c.monitors.iter().map(|m| m.name.as_str()).collect();
    assert_eq!(names, vec!["primary", "left", "left-twin", "right"]);
    assert_eq!(c.primary().unwrap().name, "primary");
    assert!(!c.is_single_monitor());
    assert_eq!(c.total_width, 5760);
    assert_eq!(c.total_height, 1080);
}

#[test]
fn no_primary_uses_first() {
    let c = MonitorConfig::from_outputs(vec![report(1, "b", 100, 10, 1), report(2, "a", 50, 10, 1)], 0);
    assert_eq!(c.primary().unwrap().name, "a");
    assert_eq!(c.total_width, 110);
}

#[test]
fn empty_configuration() {
    let c = MonitorConfig::from_outputs(vec![], 0);
    assert!(c.primary().is_none());
    assert!(c.is_single_monitor());
    assert_eq!(c.total_width, 0);
    assert_eq!(c.total_height, 0);
}

#[test]
fn extents_wrap_to_sixteen_bits() {
    let c = MonitorConfig::from_outputs(vec![report(1, "wide", 30000, 40000, 1)], 1);
    assert_eq!(c.total_width, (70000u32 % 65536) as u16);
}

#[test]
fn negative_positions_checked() {
    let fits = vec![report(1, "a", -10, 5, 1)];
    assert!(edges_fit_for(&fits, 1));
    let overflow = vec![report(1, "a", -10, 20, 1)];
    assert!(!edges_fit_for(&overflow, 1));
    let skipped = vec![report(1, "a", -10, 20, 0)];
    assert!(edges_fit_for(&skipped, 1));
}
