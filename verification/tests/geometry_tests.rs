use browser_shell::geometry::{
    content_window_config, panel_config, resolve_window_size, GeometryConfig, HeightRule,
    MonitorSize,
};

#[test]
fn fallback_when_no_monitor() {
    let cfg = content_window_config();
    let size = resolve_window_size(None, &cfg);
    assert_eq!(size.width, 1400);
    assert_eq!(size.height, 800);
}

#[test]
fn content_window_size_on_full_hd() {
    let cfg = content_window_config();
    let size = resolve_window_size(Some(MonitorSize { width: 1920, height: 1080 }), &cfg);
    // round(1920 * 0.73) = 1402; round(1402 * 4 / 7) = 801
    assert_eq!(size.width, 1402);
    assert_eq!(size.height, 801);
}

#[test]
fn panel_size_on_full_hd() {
    let cfg = panel_config();
    let size = resolve_window_size(Some(MonitorSize { width: 1920, height: 1080 }), &cfg);
    // round(1920 * 0.47) = 902; round(902 * 2 / 3) = 601
    assert_eq!(size.width, 902);
    assert_eq!(size.height, 601);
}

#[test]
fn screen_percent_height_rule() {
    let cfg = GeometryConfig {
        width_percent: 50,
        height_rule: HeightRule::ScreenPercent(50),
        fallback_width: 1400,
        fallback_height: 800,
    };
    let size = resolve_window_size(Some(MonitorSize { width: 1000, height: 900 }), &cfg);
    assert_eq!(size.width, 500);
    assert_eq!(size.height, 450);
}

#[test]
fn degenerate_monitor_still_yields_positive_size() {
    let cfg = content_window_config();
    let size = resolve_window_size(Some(MonitorSize { width: 0, height: 0 }), &cfg);
    assert!(size.width >= 1);
    assert!(size.height >= 1);
}
