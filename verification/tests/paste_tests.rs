use catering_calculator::paste::{
    activation_script, check_paste_keywords, find_owner_quartz, find_owner_win32,
    find_window_to_activate, title_has_keyword_ignoring_case,
};
use catering_calculator::target::{QuartzWindow, Win32Window};

fn win(visible: bool, title: &str) -> Win32Window {
    Win32Window { visible, title: title.to_string(), bounds: None }
}

fn quartz(owner: Option<&str>, name: Option<&str>) -> QuartzWindow {
    QuartzWindow { owner: owner.map(|s| s.to_string()), name: name.map(|s| s.to_string()), bounds: None }
}

fn keys(ks: &[&str]) -> Vec<String> {
    ks.iter().map(|k| k.to_string()).collect()
}

#[test]
fn empty_keywords_are_refused() {
    assert_eq!(check_paste_keywords(&[]), Err("未提供目标窗口关键词".to_string()));
    assert_eq!(check_paste_keywords(&keys(&["闲鱼"])), Ok(()));
}

#[test]
fn quartz_owner_is_first_matching_owned_window() {
    let ws = vec![
        quartz(None, Some("闲鱼")),
        quartz(Some("Finder"), None),
        quartz(Some("Goofish"), Some("闲鱼 - 聊天")),
        quartz(Some("闲管家"), None),
    ];
    assert_eq!(find_owner_quartz(&ws, &keys(&["闲鱼", "闲管家"])), Ok("Goofish".to_string()));
    assert_eq!(find_owner_quartz(&ws, &keys(&["管家"])), Ok("闲管家".to_string()));
    assert_eq!(
        find_owner_quartz(&ws, &keys(&["淘宝"])),
        Err("未找到目标窗口，请先打开闲鱼/闲管家".to_string())
    );
}

#[test]
fn win32_owner_ignores_case_and_returns_lowercase_title() {
    let ws = vec![win(false, "XianYu Hidden"), win(true, ""), win(true, "Goofish - XianYu Chat")];
    assert_eq!(
        find_owner_win32(&ws, &keys(&["XIANYU"])),
        Ok("goofish - xianyu chat".to_string())
    );
    assert_eq!(
        find_owner_win32(&ws, &keys(&["taobao"])),
        Err("未找到目标窗口，请先打开闲鱼/闲管家".to_string())
    );
}

#[test]
fn keyword_ignoring_case() {
    assert!(title_has_keyword_ignoring_case("ÀBC Shop", &keys(&["àb"])));
    assert!(!title_has_keyword_ignoring_case("ABC", &keys(&["abd"])));
}

#[test]
fn window_to_activate() {
    let ws = vec![win(false, "goofish"), win(true, "Notes"), win(true, "GOOFISH - Chat")];
    assert_eq!(find_window_to_activate(&ws, "goofish - chat"), Ok(2));
    assert_eq!(find_window_to_activate(&ws, "Goofish"), Ok(2));
    assert_eq!(find_window_to_activate(&ws, "taobao"), Err("无法激活目标窗口".to_string()));
}

#[test]
fn script_escapes_quotes() {
    assert_eq!(
        activation_script("闲鱼"),
        "tell application \"System Events\"\n    set targetProc to first process whose name is \"闲鱼\"\n    set frontmost of targetProc to true\nend tell"
    );
    assert_eq!(
        activation_script("A \"B\""),
        "tell application \"System Events\"\n    set targetProc to first process whose name is \"A \\\"B\\\"\"\n    set frontmost of targetProc to true\nend tell"
    );
}
