use catering_calculator::snap::WindowRect;
use catering_calculator::target::{
    find_target_window_quartz, find_target_window_win32, quartz_display_title, quartz_names_match,
    title_has_keyword, QuartzWindow, Win32Window, WindowBounds,
};

fn win(visible: bool, title: &str, bounds: Option<WindowBounds>) -> Win32Window {
    Win32Window { visible, title: title.to_string(), bounds }
}

fn bounds(left: i32, top: i32, right: i32, bottom: i32) -> WindowBounds {
    WindowBounds { left, top, right, bottom }
}

fn quartz(owner: Option<&str>, name: Option<&str>, r: Option<WindowRect>) -> QuartzWindow {
    QuartzWindow {
        owner: owner.map(|s| s.to_string()),
        name: name.map(|s| s.to_string()),
        bounds: r,
    }
}

fn keys(ks: &[&str]) -> Vec<String> {
    ks.iter().map(|k| k.to_string()).collect()
}

#[test]
fn keyword_in_title() {
    assert!(title_has_keyword("闲鱼管家", &keys(&["鱼"])));
    assert!(!title_has_keyword("闲鱼管家", &keys(&["淘宝", "京东"])));
    assert!(!title_has_keyword("闲鱼管家", &keys(&[])));
    assert!(title_has_keyword("anything", &keys(&[""])));
}

#[test]
fn win32_target_is_first_visible_titled_match_with_bounds() {
    let ws = vec![
        win(false, "闲鱼", Some(bounds(0, 0, 10, 10))),
        win(true, "", Some(bounds(0, 0, 10, 10))),
        win(true, "记事本", Some(bounds(0, 0, 10, 10))),
        win(true, "闲鱼 - 聊天", None),
        win(true, "闲鱼 - 主窗口", Some(bounds(10, 20, 110, 220))),
        win(true, "闲鱼 - 另一个", Some(bounds(0, 0, 10, 10))),
    ];
    assert_eq!(find_target_window_win32(&ws, &keys(&["闲鱼"])), Some(4));
    assert_eq!(find_target_window_win32(&ws, &keys(&["淘宝"])), None);
    assert_eq!(
        ws[4].bounds.unwrap().checked_rect(),
        Some(WindowRect { x: 10, y: 20, width: 100, height: 200 })
    );
}

#[test]
fn win32_match_is_case_sensitive() {
    let ws = vec![win(true, "XianYu", Some(bounds(0, 0, 1, 1)))];
    assert_eq!(find_target_window_win32(&ws, &keys(&["xianyu"])), None);
    assert_eq!(find_target_window_win32(&ws, &keys(&["XianYu"])), Some(0));
}

#[test]
fn bounds_overflow_is_refused() {
    assert_eq!(bounds(i32::MIN, 0, i32::MAX, 1).checked_rect(), None);
    assert_eq!(bounds(0, i32::MIN, 1, i32::MAX).checked_rect(), None);
    assert_eq!(
        bounds(-5, -5, 5, 5).to_rect(),
        WindowRect { x: -5, y: -5, width: 10, height: 10 }
    );
}

#[test]
fn quartz_name_or_owner_matches() {
    assert!(quartz_names_match("闲鱼", "", &keys(&["鱼"])));
    assert!(quartz_names_match("Finder", "闲鱼订单", &keys(&["订单"])));
    assert!(!quartz_names_match("Finder", "", &keys(&["订单"])));
    // An empty name never matches, even an empty keyword; the owner still may.
    assert!(quartz_names_match("", "", &keys(&[""])));
}

#[test]
fn quartz_titles() {
    assert_eq!(quartz_display_title("闲鱼", "消息"), "闲鱼 - 消息");
    assert_eq!(quartz_display_title("闲鱼", ""), "闲鱼");
}

#[test]
fn quartz_target_skips_small_and_unbounded_windows() {
    let big = WindowRect { x: 1, y: 2, width: 800, height: 600 };
    let ws = vec![
        quartz(Some("Finder"), Some("桌面"), Some(big)),
        quartz(Some("闲鱼"), None, None),
        quartz(Some("闲鱼"), Some("菜单"), Some(WindowRect { x: 0, y: 0, width: 99, height: 500 })),
        quartz(Some("闲鱼"), Some("主窗口"), Some(WindowRect { x: 0, y: 0, width: 500, height: 99 })),
        quartz(None, Some("闲鱼 - 主窗口"), Some(big)),
        quartz(Some("闲鱼"), Some("次窗口"), Some(big)),
    ];
    assert_eq!(
        find_target_window_quartz(&ws, &keys(&["闲鱼"])),
        Some((big, " - 闲鱼 - 主窗口".to_string()))
    );
    assert_eq!(find_target_window_quartz(&ws[5..], &keys(&["闲鱼"])), Some((big, "闲鱼 - 次窗口".to_string())));
    assert_eq!(find_target_window_quartz(&ws, &keys(&["淘宝"])), None);
}

#[test]
fn quartz_minimum_size_is_inclusive() {
    let r = WindowRect { x: 0, y: 0, width: 100, height: 100 };
    let ws = vec![quartz(Some("闲鱼"), None, Some(r))];
    assert_eq!(find_target_window_quartz(&ws, &keys(&["闲鱼"])), Some((r, "闲鱼".to_string())));
}
