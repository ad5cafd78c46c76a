use minnow_capture::geometry::Rect;
use minnow_capture::window_catalog::{
    check_monitors_fit, check_windows_fit, is_screen_chrome, is_system_overlay, is_too_small, screen_layout, select_windows, visible_window_rect, MonitorInfo,
    NativeWindow, APP_NAME,
};

#[test]
fn system_overlays_are_detected() {
    assert!(is_system_overlay("Dock", ""));
    assert!(is_system_overlay("Window Server", "Menubar"));
    assert!(is_system_overlay(APP_NAME, "MinnowSnap"));
    assert!(!is_system_overlay("FibonaxStudio", "main"));
}

#[test]
fn screen_chrome_matches_menu_bar_and_dock() {
    let screen = Rect::new(0, 0, 1512, 982);
    assert!(is_screen_chrome(Rect::new(0, 0, 1512, 24), screen));
    assert!(is_screen_chrome(Rect::new(0, 902, 1512, 80), screen));
    assert!(!is_screen_chrome(Rect::new(200, 80, 1000, 700), screen));
    assert!(!is_too_small(Rect::new(200, 80, 1000, 700)));
    assert!(is_too_small(Rect::new(10, 10, 4, 40)));
}

#[test]
fn overlay_names_match_without_ascii_case() {
    assert!(is_system_overlay("dock", "x"));
    assert!(is_system_overlay("x", "SPOTLIGHT"));
    assert!(is_system_overlay("程序坞", ""));
    assert!(!is_system_overlay("Docker", "Dockyard"));
    assert!(!is_system_overlay("minnowsnap", ""));
}

fn monitor(x: i32, y: i32, width: u32, height: u32, is_primary: bool) -> MonitorInfo {
    MonitorInfo { x, y, width, height, is_primary }
}

fn window(x: i32, y: i32, w: u32, h: u32, app: &str, title: &str) -> NativeWindow {
    NativeWindow {
        x,
        y,
        width: Some(w),
        height: Some(h),
        minimized: false,
        app_name: app.to_string(),
        title: title.to_string(),
    }
}

#[test]
fn screen_layout_spans_all_monitors_from_the_primary_origin() {
    let monitors = vec![monitor(1920, 0, 1280, 1024, false), monitor(0, 0, 1920, 1080, true)];
    let layout = screen_layout(&monitors);
    assert_eq!(layout.screen, Rect::new(0, 0, 3200, 1080));
    assert_eq!((layout.origin_x, layout.origin_y), (0, 0));
    assert_eq!(layout.primary, Rect::new(0, 0, 1920, 1080));
}

#[test]
fn screen_layout_without_primary_uses_first_and_minimum_size() {
    let monitors = vec![monitor(-100, -50, 800, 600, false), monitor(700, 0, 300, 300, false)];
    let layout = screen_layout(&monitors);
    assert_eq!(layout.screen, Rect::new(-100, -50, 1920, 1080));
    assert_eq!((layout.origin_x, layout.origin_y), (-100, -50));
    assert_eq!(layout.primary, Rect::new(-100, -50, 800, 600));
}

#[test]
fn screen_layout_without_monitors_is_a_large_fallback() {
    let layout = screen_layout(&Vec::new());
    assert_eq!(layout.screen, Rect::new(0, 0, 10000, 10000));
    assert_eq!(layout.primary, Rect::new(0, 0, 10000, 10000));
}

#[test]
fn window_selection_drops_chrome_small_minimized_and_overlays() {
    let layout = screen_layout(&vec![monitor(0, 0, 1512, 982, true)]);
    let mut minimized = window(100, 100, 400, 300, "Notes", "n");
    minimized.minimized = true;
    let mut unknown_size = window(100, 100, 400, 300, "Notes", "n");
    unknown_size.height = None;
    let windows = vec![
        window(200, 80, 1000, 700, "FibonaxStudio", "Editor"),
        window(0, 0, 1512, 24, "Menubar", "bar"),
        window(10, 10, 4, 40, "Tiny", "t"),
        minimized,
        unknown_size,
        window(0, 0, 100, 100, "Dock", ""),
        window(-50, 500, 300, 1000, "Terminal", "sh"),
        window(5000, 5000, 100, 100, "Offscreen", "o"),
    ];
    let picked = select_windows(&windows, layout);
    assert_eq!(picked, vec![(0, Rect::new(200, 80, 1000, 700)), (6, Rect::new(0, 500, 250, 580))]);
    assert_eq!(visible_window_rect(&windows[1], layout), None);
}

#[test]
fn size_checks_accept_ordinary_screens_and_refuse_overflowing_ones() {
    let ordinary = vec![monitor(0, 0, 1920, 1080, true), monitor(-1280, 0, 1280, 1024, false)];
    assert!(check_monitors_fit(&ordinary));
    assert!(check_monitors_fit(&Vec::new()));
    assert!(!check_monitors_fit(&vec![monitor(i32::MAX - 10, 0, 100, 100, true)]));
    assert!(!check_monitors_fit(&vec![monitor(i32::MIN, 0, 100, 100, true), monitor(i32::MAX - 50, 0, 10, 10, false)]));

    let layout = screen_layout(&ordinary);
    let windows = vec![window(200, 80, 1000, 700, "Editor", "main"), window(0, 0, 0, 0, "Empty", "")];
    assert!(check_windows_fit(&windows, layout));
    let mut tall = layout;
    tall.primary = Rect::new(0, i32::MAX - 1, 100, 100);
    assert!(!check_windows_fit(&windows, tall));
}
