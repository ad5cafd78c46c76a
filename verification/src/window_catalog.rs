use vstd::prelude::*;
use crate::geometry::{Rect, max_int, min_int};
use crate::text::{str_eq_ignore_ascii_case, eq_ignore_ascii_case, chars_of, chars_eq_str};

verus! {

/// The application's own name; its windows are never offered for capture.
pub const APP_NAME: &'static str = "MinnowSnap";

pub const MIN_VIRTUAL_WIDTH: i32 = 1920;

pub const MIN_VIRTUAL_HEIGHT: i32 = 1080;

pub const MIN_WINDOW_EDGE: i32 = 8;

pub const MENU_BAR_MAX_HEIGHT: i32 = 48;

pub const DOCK_MAX_HEIGHT: i32 = 96;

/// A window offered for capture, in overlay coordinates.
#[derive(Debug, Clone)]
pub struct WindowInfo {
    pub title: String,
    pub x: i32,
    pub y: i32,
    pub width: u32,
    pub height: u32,
    pub app_name: String,
}

/// A window as the system reports it. `width` and `height` are `None`
/// when the system could not report them.
#[derive(Debug)]
pub struct NativeWindow {
    pub x: i32,
    pub y: i32,
    pub width: Option<u32>,
    pub height: Option<u32>,
    pub minimized: bool,
    pub app_name: String,
    pub title: String,
}

/// A monitor as the system reports it.
#[derive(Debug, Clone, Copy, PartialEq, Eq, Structural)]
pub struct MonitorInfo {
    pub x: i32,
    pub y: i32,
    pub width: u32,
    pub height: u32,
    pub is_primary: bool,
}

/// The screen space that windows are clipped to, the origin of overlay
/// coordinates and the primary monitor's rectangle.
#[derive(Debug, Clone, Copy, PartialEq, Eq, Structural)]
pub struct ScreenLayout {
    pub screen: Rect,
    pub origin_x: i32,
    pub origin_y: i32,
    pub primary: Rect,
}

/// The names of system windows that float over the desktop.
pub open spec fn system_overlay_names() -> Seq<Seq<char>> {
    seq![
        "程序坞"@,
        "Dock"@,
        "Window Server"@,
        "SystemUIServer"@,
        "Control Center"@,
        "Notification Center"@,
        "Spotlight"@,
        "StatusIndicator"@,
    ]
}

/// The window belongs to this application or is a system overlay.
pub open spec fn spec_is_system_overlay(app_name: Seq<char>, title: Seq<char>) -> bool {
    ||| app_name == APP_NAME@
    ||| exists|i: int|
        0 <= i < system_overlay_names().len() && (eq_ignore_ascii_case(app_name, #[trigger] system_overlay_names()[i])
            || eq_ignore_ascii_case(title, system_overlay_names()[i]))
}

/// The sums that `is_screen_chrome` computes fit an `i32`.
pub open spec fn chrome_defined(rect: Rect, screen: Rect) -> bool {
    &&& rect.y + rect.height <= i32::MAX && rect.y + rect.height >= i32::MIN
    &&& screen.y + 2 <= i32::MAX
    &&& i32::MIN <= screen.y + screen.height - 4 <= i32::MAX
    &&& screen.y + screen.height <= i32::MAX
}

/// The rectangle spans the screen's width and sits as a menu bar at its top
/// or as a dock at its bottom.
pub open spec fn spec_is_screen_chrome(rect: Rect, screen: Rect) -> bool {
    let full_width = rect.width >= (if screen.width >= i32::MIN + 4 { screen.width - 4 } else { i32::MIN as int });
    let menu_bar = rect.y <= screen.y + 2 && rect.height <= MENU_BAR_MAX_HEIGHT;
    let dock = rect.y + rect.height >= screen.y + screen.height - 4 && rect.height <= DOCK_MAX_HEIGHT;
    full_width && (menu_bar || dock)
}

pub open spec fn spec_is_too_small(rect: Rect) -> bool {
    rect.width < MIN_WINDOW_EDGE || rect.height < MIN_WINDOW_EDGE
}

/// `i32::try_from(v).unwrap_or(0)`.
pub open spec fn i32_or_zero(v: u32) -> int {
    if v <= i32::MAX { v as int } else { 0 }
}

/// The monitor as a rectangle (sizes too large for an `i32` count as 0).
pub open spec fn monitor_rect(m: MonitorInfo) -> Rect {
    Rect { x: m.x, y: m.y, width: i32_or_zero(m.width) as i32, height: i32_or_zero(m.height) as i32 }
}

/// `k` is the index of the first monitor marked primary.
pub open spec fn is_first_primary(ms: Seq<MonitorInfo>, k: int) -> bool {
    &&& 0 <= k < ms.len()
    &&& ms[k].is_primary
    &&& forall|j: int| 0 <= j < k ==> !(#[trigger] ms[j]).is_primary
}

/// Index of the first primary monitor, else 0.
pub open spec fn primary_index(ms: Seq<MonitorInfo>) -> int {
    if exists|k: int| is_first_primary(ms, k) {
        choose|k: int| is_first_primary(ms, k)
    } else {
        0
    }
}

/// The smallest left edge, smallest top edge, largest right edge and
/// largest bottom edge of the monitors (starting from the `i32` extremes).
pub open spec fn monitor_bounds(ms: Seq<MonitorInfo>) -> (int, int, int, int)
    decreases ms.len(),
{
    if ms.len() == 0 {
        (i32::MAX as int, i32::MAX as int, i32::MIN as int, i32::MIN as int)
    } else {
        let (a, b, c, d) = monitor_bounds(ms.drop_last());
        let r = monitor_rect(ms.last());
        (
            min_int(a, r.x as int),
            min_int(b, r.y as int),
            max_int(c, r.x + r.width),
            max_int(d, r.y + r.height),
        )
    }
}

/// The edge sums of every monitor and the extent of all of them fit an `i32`.
pub open spec fn monitors_fit(ms: Seq<MonitorInfo>) -> bool {
    &&& forall|i: int|
        0 <= i < ms.len() ==> {
            let r = #[trigger] monitor_rect(ms[i]);
            &&& r.x + r.width <= i32::MAX
            &&& r.y + r.height <= i32::MAX
        }
    &&& ms.len() > 0 ==> {
        let (a, b, c, d) = monitor_bounds(ms);
        &&& c - a <= i32::MAX
        &&& d - b <= i32::MAX
    }
}

/// The layout that `screen_layout` computes.
pub open spec fn spec_screen_layout(ms: Seq<MonitorInfo>) -> ScreenLayout {
    if ms.len() == 0 {
        let fallback = Rect { x: 0, y: 0, width: 10000, height: 10000 };
        ScreenLayout { screen: fallback, origin_x: 0, origin_y: 0, primary: fallback }
    } else {
        let p = ms[primary_index(ms)];
        let (a, b, c, d) = monitor_bounds(ms);
        ScreenLayout {
            screen: Rect {
                x: a as i32,
                y: b as i32,
                width: max_int(c - a, MIN_VIRTUAL_WIDTH as int) as i32,
                height: max_int(d - b, MIN_VIRTUAL_HEIGHT as int) as i32,
            },
            origin_x: p.x,
            origin_y: p.y,
            primary: monitor_rect(p),
        }
    }
}

/// The part of the window that is offered for capture: it is not minimized,
/// reports a positive size that fits an `i32`, overlaps the screen, is not
/// too small, is not the menu bar or dock, and is not a system overlay.
pub open spec fn spec_visible_rect(w: NativeWindow, layout: ScreenLayout) -> Option<Rect> {
    if w.minimized {
        None
    } else {
        match (w.width, w.height) {
            (Some(ww), Some(wh)) => if ww == 0 || wh == 0 || ww > i32::MAX || wh > i32::MAX {
                None
            } else {
                let current = Rect { x: w.x, y: w.y, width: ww as i32, height: wh as i32 };
                match current.spec_intersect(layout.screen) {
                    None => None,
                    Some(v) => if spec_is_too_small(v) || spec_is_screen_chrome(v, layout.primary)
                        || spec_is_system_overlay(w.app_name@, w.title@) {
                        None
                    } else {
                        Some(v)
                    },
                }
            },
            _ => None,
        }
    }
}

/// Every window whose size checks pass can be tested for menu bar and dock.
pub open spec fn windows_fit(ws: Seq<NativeWindow>, layout: ScreenLayout) -> bool {
    forall|i: int| 0 <= i < ws.len() ==> window_fits(#[trigger] ws[i], layout)
}

/// The sums that `select_windows` computes for this window fit an `i32`:
/// those of the menu bar and dock test on its part on the screen, when it
/// has one and is not too small.
pub open spec fn window_fits(w: NativeWindow, layout: ScreenLayout) -> bool {
    match (w.width, w.height) {
        (Some(ww), Some(wh)) => (!w.minimized && ww > 0 && wh > 0 && ww <= i32::MAX && wh <= i32::MAX)
            ==> match (Rect { x: w.x, y: w.y, width: ww as i32, height: wh as i32 }).spec_intersect(layout.screen) {
            Some(v) => !spec_is_too_small(v) ==> chrome_defined(v, layout.primary),
            None => true,
        },
        _ => true,
    }
}

/// The windows offered for capture, front to back: each one's index and
/// its part on the screen.
pub open spec fn spec_select_windows(ws: Seq<NativeWindow>, layout: ScreenLayout) -> Seq<(usize, Rect)>
    decreases ws.len(),
{
    if ws.len() == 0 {
        Seq::empty()
    } else {
        let init = spec_select_windows(ws.drop_last(), layout);
        match spec_visible_rect(ws.last(), layout) {
            Some(v) => init.push(((ws.len() - 1) as usize, v)),
            None => init,
        }
    }
}

/// The selected window lies among the first `n` windows and its part
/// has area inside the screen.
pub open spec fn selected_within(n: int, layout: ScreenLayout, e: (usize, Rect)) -> bool {
    let r = e.1;
    &&& e.0 < n
    &&& r.width > 0 && r.height > 0
    &&& layout.screen.x <= r.x && r.x + r.width <= layout.screen.right()
    &&& layout.screen.y <= r.y && r.y + r.height <= layout.screen.bottom()
}

/// The selection keeps the windows' front-to-back order, and every window
/// it offers lies inside the screen with area.
pub proof fn lemma_selection_ordered_within_screen(ws: Seq<NativeWindow>, layout: ScreenLayout)
    requires
        ws.len() <= usize::MAX,
    ensures
        forall|i: int, j: int|
            0 <= i < j < spec_select_windows(ws, layout).len() ==> (#[trigger] spec_select_windows(ws, layout)[i]).0
                < (#[trigger] spec_select_windows(ws, layout)[j]).0,
        forall|i: int|
            0 <= i < spec_select_windows(ws, layout).len() ==> selected_within(
                ws.len() as int,
                layout,
                #[trigger] spec_select_windows(ws, layout)[i],
            ),
    decreases ws.len(),
{
    if ws.len() > 0 {
        let init = ws.drop_last();
        lemma_selection_ordered_within_screen(init, layout);
        let prev = spec_select_windows(init, layout);
        let sel = spec_select_windows(ws, layout);
        let w = ws.last();
        let n = ws.len() as int;
        match spec_visible_rect(w, layout) {
            Some(v) => {
                assert(sel == prev.push(((ws.len() - 1) as usize, v)));
                assert(((ws.len() - 1) as usize) as int == ws.len() - 1);
                let ww = w.width->0;
                let wh = w.height->0;
                let current = Rect { x: w.x, y: w.y, width: ww as i32, height: wh as i32 };
                assert(current.spec_intersect(layout.screen) == Some(v));
                assert(selected_within(n, layout, ((ws.len() - 1) as usize, v)));
                assert forall|i: int, j: int| 0 <= i < j < sel.len() implies (#[trigger] sel[i]).0 < (
                #[trigger] sel[j]).0 by {
                    assert(sel[i] == prev[i]);
                    assert(selected_within(n - 1, layout, prev[i]));
                    if j < prev.len() {
                        assert(sel[j] == prev[j]);
                    }
                }
                assert forall|i: int| 0 <= i < sel.len() implies selected_within(n, layout, #[trigger] sel[i]) by {
                    if i < prev.len() {
                        assert(sel[i] == prev[i]);
                        assert(selected_within(n - 1, layout, prev[i]));
                    }
                }
            },
            None => {
                assert(sel == prev);
                assert forall|i: int| 0 <= i < sel.len() implies selected_within(n, layout, #[trigger] sel[i]) by {
                    assert(selected_within(n - 1, layout, prev[i]));
                }
            },
        }
    }
}

/// The names of system windows that float over the desktop.
pub fn system_overlay_name_list() -> (v: Vec<&'static str>)
    ensures
        v@.len() == system_overlay_names().len(),
        forall|i: int| 0 <= i < v@.len() ==> #[trigger] v@[i]@ == system_overlay_names()[i],
{
    let v = vec![
        "程序坞",
        "Dock",
        "Window Server",
        "SystemUIServer",
        "Control Center",
        "Notification Center",
        "Spotlight",
        "StatusIndicator",
    ];
    v
}

/// Whether the window belongs to this application or is a system overlay
/// (names compared without ASCII case).
pub fn is_system_overlay(app_name: &str, title: &str) -> (b: bool)
    ensures
        b == spec_is_system_overlay(app_name@, title@),
{
    let app = chars_of(app_name);
    if chars_eq_str(&app, APP_NAME) {
        return true;
    }
    let names = system_overlay_name_list();
    let mut i: usize = 0;
    while i < names.len()
        invariant
            i <= names@.len(),
            names@.len() == system_overlay_names().len(),
            forall|k: int| 0 <= k < names@.len() ==> #[trigger] names@[k]@ == system_overlay_names()[k],
            app_name@ != APP_NAME@,
            forall|k: int|
                0 <= k < i ==> !(eq_ignore_ascii_case(app_name@, #[trigger] system_overlay_names()[k])
                    || eq_ignore_ascii_case(title@, system_overlay_names()[k])),
        decreases names.len() - i,
    {
        let name = names[i];
        if str_eq_ignore_ascii_case(app_name, name) || str_eq_ignore_ascii_case(title, name) {
            return true;
        }
        i = i + 1;
    }
    false
}

/// Whether the rectangle is the menu bar or the dock of `screen`.
pub fn is_screen_chrome(rect: Rect, screen: Rect) -> (b: bool)
    requires
        chrome_defined(rect, screen),
    ensures
        b == spec_is_screen_chrome(rect, screen),
{
    let edge = if screen.width >= i32::MIN + 4 { screen.width - 4 } else { i32::MIN };
    let full_width = rect.width >= edge;
    let menu_bar = rect.y <= screen.y + 2 && rect.height <= MENU_BAR_MAX_HEIGHT;
    let dock = rect.y + rect.height >= screen.y + screen.height - 4 && rect.height <= DOCK_MAX_HEIGHT;
    full_width && (menu_bar || dock)
}

/// Whether either side of the rectangle is shorter than `MIN_WINDOW_EDGE`.
pub fn is_too_small(rect: Rect) -> (b: bool)
    ensures
        b == spec_is_too_small(rect),
{
    rect.width < MIN_WINDOW_EDGE || rect.height < MIN_WINDOW_EDGE
}

fn i32_or_zero_of(v: u32) -> (r: i32)
    ensures
        r == i32_or_zero(v),
{
    if v <= i32::MAX as u32 { v as i32 } else { 0 }
}

/// The screen space of all monitors (at least `MIN_VIRTUAL_WIDTH` by
/// `MIN_VIRTUAL_HEIGHT`), the primary monitor's origin and rectangle; the
/// primary monitor is the first one marked so, else the first one. Without
/// monitors the screen is 10000 by 10000 at the origin.
pub fn screen_layout(monitors: &Vec<MonitorInfo>) -> (l: ScreenLayout)
    requires
        monitors_fit(monitors@),
    ensures
        l == spec_screen_layout(monitors@),
{
    let n = monitors.len();
    if n == 0 {
        let fallback = Rect { x: 0, y: 0, width: 10000, height: 10000 };
        return ScreenLayout { screen: fallback, origin_x: 0, origin_y: 0, primary: fallback };
    }
    let mut primary: usize = 0;
    let mut k: usize = 0;
    while k < n
        invariant
            n == monitors@.len(),
            k <= n,
            forall|j: int| 0 <= j < k ==> !(#[trigger] monitors@[j]).is_primary,
        ensures
            k <= n,
            forall|j: int| 0 <= j < k ==> !(#[trigger] monitors@[j]).is_primary,
            k < n ==> monitors@[k as int].is_primary,
        decreases n - k,
    {
        if monitors[k].is_primary {
            break;
        }
        k = k + 1;
    }
    if k < n {
        primary = k;
        proof {
            assert(is_first_primary(monitors@, k as int));
            let c = choose|c: int| is_first_primary(monitors@, c);
            if c < k {
                assert(!monitors@[c].is_primary);
            }
            if k < c {
                assert(!monitors@[k as int].is_primary);
            }
        }
    } else {
        proof {
            assert forall|c: int| !is_first_primary(monitors@, c) by {
                if 0 <= c < n {
                    assert(!monitors@[c].is_primary);
                }
            }
        }
    }
    let mut min_x: i32 = i32::MAX;
    let mut min_y: i32 = i32::MAX;
    let mut max_x: i32 = i32::MIN;
    let mut max_y: i32 = i32::MIN;
    let mut i: usize = 0;
    while i < n
        invariant
            n == monitors@.len(),
            0 <= i <= n,
            monitors_fit(monitors@),
            (min_x as int, min_y as int, max_x as int, max_y as int) == monitor_bounds(monitors@.take(i as int)),
        decreases n - i,
    {
        let m = monitors[i];
        proof {
            let t = monitors@.take(i + 1);
            assert(t.drop_last() =~= monitors@.take(i as int));
            assert(t.last() == monitors@[i as int]);
            let r = monitor_rect(monitors@[i as int]);
        }
        let w = i32_or_zero_of(m.width);
        let h = i32_or_zero_of(m.height);
        if m.x < min_x {
            min_x = m.x;
        }
        if m.y < min_y {
            min_y = m.y;
        }
        let right = m.x + w;
        let bottom = m.y + h;
        if right > max_x {
            max_x = right;
        }
        if bottom > max_y {
            max_y = bottom;
        }
        i = i + 1;
    }
    proof {
        assert(monitors@.take(n as int) =~= monitors@);
    }
    let p = monitors[primary];
    let span_x = max_x - min_x;
    let span_y = max_y - min_y;
    let width = if span_x >= MIN_VIRTUAL_WIDTH { span_x } else { MIN_VIRTUAL_WIDTH };
    let height = if span_y >= MIN_VIRTUAL_HEIGHT { span_y } else { MIN_VIRTUAL_HEIGHT };
    let primary_rect = Rect { x: p.x, y: p.y, width: i32_or_zero_of(p.width), height: i32_or_zero_of(p.height) };
    ScreenLayout {
        screen: Rect { x: min_x, y: min_y, width, height },
        origin_x: p.x,
        origin_y: p.y,
        primary: primary_rect,
    }
}

/// Whether `screen_layout` can take these monitors: each one's right and
/// bottom edge and the extent of all of them fit an `i32`.
pub fn check_monitors_fit(monitors: &Vec<MonitorInfo>) -> (b: bool)
    ensures
        b == monitors_fit(monitors@),
{
    let n = monitors.len();
    let mut min_x: i64 = i32::MAX as i64;
    let mut min_y: i64 = i32::MAX as i64;
    let mut max_x: i64 = i32::MIN as i64;
    let mut max_y: i64 = i32::MIN as i64;
    let mut i: usize = 0;
    while i < n
        invariant
            n == monitors@.len(),
            0 <= i <= n,
            (min_x as int, min_y as int, max_x as int, max_y as int) == monitor_bounds(monitors@.take(i as int)),
            i32::MIN <= min_x <= i32::MAX,
            i32::MIN <= min_y <= i32::MAX,
            i32::MIN <= max_x <= i32::MAX,
            i32::MIN <= max_y <= i32::MAX,
            forall|j: int|
                0 <= j < i ==> {
                    let r = #[trigger] monitor_rect(monitors@[j]);
                    &&& r.x + r.width <= i32::MAX
                    &&& r.y + r.height <= i32::MAX
                },
        decreases n - i,
    {
        let m = monitors[i];
        let w = i32_or_zero_of(m.width);
        let h = i32_or_zero_of(m.height);
        let right = m.x as i64 + w as i64;
        let bottom = m.y as i64 + h as i64;
        proof {
            let t = monitors@.take(i + 1);
            assert(t.drop_last() =~= monitors@.take(i as int));
            assert(t.last() == monitors@[i as int]);
            let r = monitor_rect(monitors@[i as int]);
            assert(r.width == w && r.height == h);
        }
        if right > i32::MAX as i64 || bottom > i32::MAX as i64 {
            proof {
                let r = monitor_rect(monitors@[i as int]);
                assert(!(r.x + r.width <= i32::MAX && r.y + r.height <= i32::MAX));
            }
            return false;
        }
        if (m.x as i64) < min_x {
            min_x = m.x as i64;
        }
        if (m.y as i64) < min_y {
            min_y = m.y as i64;
        }
        if right > max_x {
            max_x = right;
        }
        if bottom > max_y {
            max_y = bottom;
        }
        i = i + 1;
    }
    proof {
        assert(monitors@.take(n as int) =~= monitors@);
    }
    n == 0 || (max_x - min_x <= i32::MAX as i64 && max_y - min_y <= i32::MAX as i64)
}

/// Whether the menu bar and dock test can take `rect` on `screen`: its sums
/// fit an `i32`.
fn check_chrome_defined(rect: Rect, screen: Rect) -> (b: bool)
    ensures
        b == chrome_defined(rect, screen),
{
    let bottom = rect.y as i64 + rect.height as i64;
    let top = screen.y as i64;
    let end = screen.y as i64 + screen.height as i64;
    bottom <= i32::MAX as i64 && bottom >= i32::MIN as i64 && top + 2 <= i32::MAX as i64 && end - 4
        >= i32::MIN as i64 && end - 4 <= i32::MAX as i64 && end <= i32::MAX as i64
}

/// Whether the sums that `select_windows` computes for `w` fit an `i32`.
fn check_window_fits(w: &NativeWindow, layout: ScreenLayout) -> (b: bool)
    ensures
        b == window_fits(*w, layout),
{
    match (w.width, w.height) {
        (Some(ww), Some(wh)) => {
            if w.minimized || ww == 0 || wh == 0 || ww > i32::MAX as u32 || wh > i32::MAX as u32 {
                return true;
            }
            let rect = Rect { x: w.x, y: w.y, width: ww as i32, height: wh as i32 };
            match rect.intersect(layout.screen) {
                Some(v) => is_too_small(v) || check_chrome_defined(v, layout.primary),
                None => true,
            }
        },
        _ => true,
    }
}

/// Whether `select_windows` can take these windows on `layout`.
pub fn check_windows_fit(windows: &Vec<NativeWindow>, layout: ScreenLayout) -> (b: bool)
    ensures
        b == windows_fit(windows@, layout),
{
    let mut i: usize = 0;
    while i < windows.len()
        invariant
            i <= windows@.len(),
            forall|j: int| 0 <= j < i ==> window_fits(#[trigger] windows@[j], layout),
        decreases windows.len() - i,
    {
        if !check_window_fits(&windows[i], layout) {
            return false;
        }
        i = i + 1;
    }
    true
}

/// The part of the window offered for capture, if any.
pub fn visible_window_rect(w: &NativeWindow, layout: ScreenLayout) -> (r: Option<Rect>)
    requires
        windows_fit(seq![*w], layout),
    ensures
        r == spec_visible_rect(*w, layout),
{
    if w.minimized {
        return None;
    }
    let ww = match w.width {
        Some(v) => v,
        None => return None,
    };
    let wh = match w.height {
        Some(v) => v,
        None => return None,
    };
    if ww == 0 || wh == 0 || ww > i32::MAX as u32 || wh > i32::MAX as u32 {
        return None;
    }
    let current = Rect { x: w.x, y: w.y, width: ww as i32, height: wh as i32 };
    let valid = match current.intersect(layout.screen) {
        Some(v) => v,
        None => return None,
    };
    proof {
        assert(seq![*w][0] == *w);
    }
    if is_too_small(valid) || is_screen_chrome(valid, layout.primary) {
        return None;
    }
    if is_system_overlay(w.app_name.as_str(), w.title.as_str()) {
        return None;
    }
    Some(valid)
}

/// The windows offered for capture, in the order given (front to back):
/// each one's index and its part on the screen.
pub fn select_windows(windows: &Vec<NativeWindow>, layout: ScreenLayout) -> (r: Vec<(usize, Rect)>)
    requires
        windows_fit(windows@, layout),
    ensures
        r@ == spec_select_windows(windows@, layout),
{
    let mut out: Vec<(usize, Rect)> = Vec::new();
    let mut i: usize = 0;
    while i < windows.len()
        invariant
            i <= windows@.len(),
            windows_fit(windows@, layout),
            out@ == spec_select_windows(windows@.take(i as int), layout),
        decreases windows.len() - i,
    {
        proof {
            let t = windows@.take(i + 1);
            assert(t.drop_last() =~= windows@.take(i as int));
            assert(t.last() == windows@[i as int]);
            assert(seq![windows@[i as int]][0] == windows@[i as int]);
        }
        let w = &windows[i];
        match visible_window_rect(w, layout) {
            Some(v) => out.push((i, v)),
            None => {},
        }
        i = i + 1;
    }
    proof {
        assert(windows@.take(windows@.len() as int) =~= windows@);
    }
    out
}

/// A rectangle taller than both a menu bar and a dock can be is never taken
/// for either, however wide it is and wherever it sits.
pub proof fn lemma_tall_rect_is_not_chrome(rect: Rect, screen: Rect)
    requires
        rect.height > MENU_BAR_MAX_HEIGHT,
        rect.height > DOCK_MAX_HEIGHT,
    ensures
        !spec_is_screen_chrome(rect, screen),
{
}

/// A window that is not minimized, whose part on the screen is wide enough
/// to keep and taller than a dock, and that is no system overlay, is offered
/// with all of that part, as a maximized window is.
pub proof fn lemma_tall_window_is_offered(w: NativeWindow, layout: ScreenLayout, v: Rect)
    requires
        !w.minimized,
        w.width matches Some(ww) && 0 < ww <= i32::MAX,
        w.height matches Some(wh) && 0 < wh <= i32::MAX,
        (Rect { x: w.x, y: w.y, width: w.width->0 as i32, height: w.height->0 as i32 }).spec_intersect(layout.screen)
            == Some(v),
        v.width >= MIN_WINDOW_EDGE,
        v.height > DOCK_MAX_HEIGHT,
        !spec_is_system_overlay(w.app_name@, w.title@),
    ensures
        spec_visible_rect(w, layout) == Some(v),
{
    lemma_tall_rect_is_not_chrome(v, layout.primary);
}

/// The edges of the monitors: some monitor has the smallest left and some
/// the smallest top edge, and every monitor lies within the bounds.
proof fn lemma_monitor_bounds_attained(ms: Seq<MonitorInfo>)
    requires
        ms.len() > 0,
    ensures
        ({
            let (a, b, c, d) = monitor_bounds(ms);
            &&& exists|j: int| 0 <= j < ms.len() && (#[trigger] ms[j]).x == a
            &&& exists|j: int| 0 <= j < ms.len() && (#[trigger] ms[j]).y == b
            &&& forall|j: int|
                0 <= j < ms.len() ==> {
                    let r = #[trigger] monitor_rect(ms[j]);
                    &&& a <= r.x && r.x + r.width <= c
                    &&& b <= r.y && r.y + r.height <= d
                }
        }),
    decreases ms.len(),
{
    let n = ms.len() - 1;
    let prefix = ms.drop_last();
    let m = ms.last();
    let r = monitor_rect(m);
    assert(ms[n] == m);
    assert(r.width >= 0 && r.height >= 0);
    if n == 0 {
        assert(monitor_bounds(prefix) == (i32::MAX as int, i32::MAX as int, i32::MIN as int, i32::MIN as int));
        let (a, b, c, d) = monitor_bounds(ms);
        assert(a == m.x && b == m.y && c == r.x + r.width && d == r.y + r.height);
        assert(ms[0].x == a && ms[0].y == b);
        assert forall|j: int| 0 <= j < ms.len() implies {
            let rj = #[trigger] monitor_rect(ms[j]);
            &&& a <= rj.x && rj.x + rj.width <= c
            &&& b <= rj.y && rj.y + rj.height <= d
        } by {
            assert(j == 0);
        }
        return;
    }
    lemma_monitor_bounds_attained(prefix);
    let (a0, b0, c0, d0) = monitor_bounds(prefix);
    let (a, b, c, d) = monitor_bounds(ms);
    let ia = choose|j: int| 0 <= j < prefix.len() && (#[trigger] prefix[j]).x == a0;
    let ib = choose|j: int| 0 <= j < prefix.len() && (#[trigger] prefix[j]).y == b0;
    assert(ms[ia] == prefix[ia]);
    assert(ms[ib] == prefix[ib]);
    if a == a0 {
        assert(ms[ia].x == a);
    } else {
        assert(ms[n].x == a);
    }
    if b == b0 {
        assert(ms[ib].y == b);
    } else {
        assert(ms[n].y == b);
    }
    assert forall|j: int| 0 <= j < ms.len() implies {
        let rj = #[trigger] monitor_rect(ms[j]);
        &&& a <= rj.x && rj.x + rj.width <= c
        &&& b <= rj.y && rj.y + rj.height <= d
    } by {
        if j < n {
            assert(ms[j] == prefix[j]);
            let rp = monitor_rect(prefix[j]);
        }
    }
}

/// The screen spans all monitors: its left and top edges are the smallest
/// left and top edges of any monitor, and every monitor lies inside it.
pub proof fn lemma_screen_spans_monitors(ms: Seq<MonitorInfo>)
    requires
        ms.len() > 0,
        monitors_fit(ms),
    ensures
        ({
            let screen = spec_screen_layout(ms).screen;
            &&& exists|j: int| 0 <= j < ms.len() && (#[trigger] ms[j]).x == screen.x
            &&& exists|j: int| 0 <= j < ms.len() && (#[trigger] ms[j]).y == screen.y
            &&& forall|j: int|
                0 <= j < ms.len() ==> {
                    let r = #[trigger] monitor_rect(ms[j]);
                    &&& screen.x <= r.x && r.x + r.width <= screen.x + screen.width
                    &&& screen.y <= r.y && r.y + r.height <= screen.y + screen.height
                }
        }),
{
    lemma_monitor_bounds_attained(ms);
    let (a, b, c, d) = monitor_bounds(ms);
    let ja = choose|j: int| 0 <= j < ms.len() && (#[trigger] ms[j]).x == a;
    let jb = choose|j: int| 0 <= j < ms.len() && (#[trigger] ms[j]).y == b;
    let ra = monitor_rect(ms[ja]);
    let rb = monitor_rect(ms[jb]);
    assert(a <= c && b <= d);
    let screen = spec_screen_layout(ms).screen;
    assert(screen.x == a && screen.y == b);
    assert(screen.width >= c - a && screen.height >= d - b);
    assert(ms[ja].x == screen.x);
    assert(ms[jb].y == screen.y);
}

} // verus!
