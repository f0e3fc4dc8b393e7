use catering_calculator::snap::{
    monitor_or_default, snap_inputs_valid, snap_position, snap_position_checked, SnapConfig,
    SnapManager, SnapPosition, WindowRect,
};

fn rect(x: i32, y: i32, width: i32, height: i32) -> WindowRect {
    WindowRect { x, y, width, height }
}

fn config(position: SnapPosition) -> SnapConfig {
    SnapConfig {
        position,
        target_keyword: "闲鱼".to_string(),
        target_keywords: None,
        gap: 4,
    }
}

#[test]
fn new_manager_is_idle() {
    let m = SnapManager::new();
    assert!(!m.is_running());
    let s = m.status();
    assert!(!s.enabled);
    assert!(!s.target_found);
    assert_eq!(s.target_title, None);
    assert_eq!(s.position, "Right");
}

#[test]
fn start_reports_configured_position() {
    let mut m = SnapManager::new();
    m.start(config(SnapPosition::Left));
    assert!(m.is_running());
    let s = m.status();
    assert!(s.enabled);
    assert!(!s.target_found);
    assert_eq!(s.target_title, None);
    assert_eq!(s.position, "Left");
}

#[test]
fn observation_updates_target() {
    let mut m = SnapManager::new();
    m.start(config(SnapPosition::Top));
    m.observe_target(Some("闲鱼 - 消息".to_string()));
    let s = m.status();
    assert!(s.target_found);
    assert_eq!(s.target_title, Some("闲鱼 - 消息".to_string()));
    assert_eq!(s.position, "Top");
    m.observe_target(None);
    let s = m.status();
    assert!(!s.target_found);
    assert_eq!(s.target_title, None);
    assert!(s.enabled);
}

#[test]
fn stop_returns_to_idle() {
    let mut m = SnapManager::new();
    m.start(config(SnapPosition::Bottom));
    m.observe_target(Some("t".to_string()));
    m.stop();
    let s = m.status();
    assert!(!s.enabled);
    assert!(!s.target_found);
    assert_eq!(s.target_title, None);
    assert_eq!(s.position, "Right");
    m.stop();
    assert!(!m.is_running());
}

#[test]
fn restart_clears_previous_target() {
    let mut m = SnapManager::new();
    m.start(config(SnapPosition::Right));
    m.observe_target(Some("old".to_string()));
    m.start(config(SnapPosition::Left));
    let s = m.status();
    assert!(s.enabled);
    assert!(!s.target_found);
    assert_eq!(s.target_title, None);
    assert_eq!(s.position, "Left");
}

#[test]
fn position_names() {
    assert_eq!(SnapPosition::Left.name(), "Left");
    assert_eq!(SnapPosition::Right.name(), "Right");
    assert_eq!(SnapPosition::Top.name(), "Top");
    assert_eq!(SnapPosition::Bottom.name(), "Bottom");
}

#[test]
fn keywords_fall_back_to_single_keyword() {
    let c = config(SnapPosition::Right);
    assert_eq!(c.keywords(), vec!["闲鱼".to_string()]);
    let mut c2 = config(SnapPosition::Right);
    c2.target_keywords = Some(vec![]);
    assert_eq!(c2.keywords(), vec!["闲鱼".to_string()]);
    let mut c3 = config(SnapPosition::Right);
    c3.target_keyword = "  kept as is ".to_string();
    assert_eq!(c3.keywords(), vec!["  kept as is ".to_string()]);
}

#[test]
fn keywords_are_trimmed_and_filtered() {
    let mut c = config(SnapPosition::Right);
    c.target_keywords = Some(vec![
        " 闲鱼 ".to_string(),
        "   ".to_string(),
        "".to_string(),
        "闲管家\n".to_string(),
    ]);
    assert_eq!(c.keywords(), vec!["闲鱼".to_string(), "闲管家".to_string()]);
}

#[test]
fn keywords_may_all_be_blank() {
    let mut c = config(SnapPosition::Right);
    c.target_keywords = Some(vec![" ".to_string(), "\t".to_string()]);
    assert!(c.keywords().is_empty());
}

#[test]
fn monitor_default_is_full_hd() {
    assert_eq!(monitor_or_default(None), rect(0, 0, 1920, 1080));
    assert_eq!(monitor_or_default(Some(rect(10, 20, 30, 40))), rect(10, 20, 30, 40));
}

#[test]
fn snap_right_beside_target() {
    let monitor = rect(0, 0, 1920, 1080);
    let target = rect(100, 200, 800, 600);
    assert_eq!(snap_position(&target, 300, 400, &monitor, SnapPosition::Right, 4), (904, 200));
}

#[test]
fn snap_right_flips_left_when_no_room() {
    let monitor = rect(0, 0, 1920, 1080);
    let target = rect(1000, 100, 800, 600);
    // 1000 + 800 + 4 + 300 > 1920, so the window goes left: 1000 - 300 - 4.
    assert_eq!(snap_position(&target, 300, 400, &monitor, SnapPosition::Right, 4), (696, 100));
}

#[test]
fn snap_left_beside_and_flipped() {
    let monitor = rect(0, 0, 1920, 1080);
    assert_eq!(
        snap_position(&rect(500, 100, 400, 300), 300, 400, &monitor, SnapPosition::Left, 10),
        (190, 100)
    );
    assert_eq!(
        snap_position(&rect(100, 100, 400, 300), 300, 400, &monitor, SnapPosition::Left, 10),
        (510, 100)
    );
}

#[test]
fn snap_top_and_bottom() {
    let monitor = rect(0, 0, 1920, 1080);
    assert_eq!(
        snap_position(&rect(100, 500, 400, 300), 300, 200, &monitor, SnapPosition::Top, 5),
        (100, 295)
    );
    assert_eq!(
        snap_position(&rect(100, 100, 400, 300), 300, 200, &monitor, SnapPosition::Top, 5),
        (100, 405)
    );
    assert_eq!(
        snap_position(&rect(100, 100, 400, 300), 300, 200, &monitor, SnapPosition::Bottom, 5),
        (100, 405)
    );
    assert_eq!(
        snap_position(&rect(100, 700, 400, 300), 300, 200, &monitor, SnapPosition::Bottom, 5),
        (100, 495)
    );
}

#[test]
fn snap_is_clamped_to_monitor() {
    let monitor = rect(0, 0, 1920, 1080);
    // Target spans the whole width: neither side has room; the clamp decides.
    assert_eq!(
        snap_position(&rect(0, 900, 1920, 100), 300, 400, &monitor, SnapPosition::Right, 0),
        (0, 680)
    );
    // Target partly off the top of a monitor with an offset origin.
    let m2 = rect(-1920, 0, 1920, 1080);
    assert_eq!(
        snap_position(&rect(-1900, -50, 200, 200), 300, 400, &m2, SnapPosition::Right, 4),
        (-1696, 0)
    );
}

#[test]
fn snap_follows_moving_target() {
    let monitor = rect(0, 0, 1920, 1080);
    let a = snap_position(&rect(100, 100, 400, 300), 300, 200, &monitor, SnapPosition::Right, 8);
    let b = snap_position(&rect(150, 130, 400, 300), 300, 200, &monitor, SnapPosition::Right, 8);
    assert_eq!((b.0 - a.0, b.1 - a.1), (50, 30));
}

#[test]
fn checked_refuses_window_larger_than_monitor() {
    let monitor = rect(0, 0, 800, 600);
    let target = rect(0, 0, 100, 100);
    assert!(!snap_inputs_valid(&target, 900, 100, &monitor, SnapPosition::Right, 0));
    assert_eq!(snap_position_checked(&target, 900, 100, &monitor, SnapPosition::Right, 0), None);
    assert_eq!(snap_position_checked(&target, 100, 700, &monitor, SnapPosition::Top, 0), None);
}

#[test]
fn checked_refuses_overflow() {
    let monitor = rect(0, 0, 1920, 1080);
    let target = rect(i32::MAX - 10, 0, 100, 100);
    assert_eq!(snap_position_checked(&target, 100, 100, &monitor, SnapPosition::Right, 0), None);
    let far = rect(10, 0, i32::MAX, 100);
    assert_eq!(snap_position_checked(&rect(0, 0, 1, 1), 1, 1, &far, SnapPosition::Top, 0), None);
    let low = rect(i32::MIN + 5, 0, 10, 10);
    assert_eq!(snap_position_checked(&low, 100, 100, &monitor, SnapPosition::Left, 0), None);
}

#[test]
fn checked_agrees_with_unchecked() {
    let monitor = rect(0, 0, 1920, 1080);
    let target = rect(100, 200, 800, 600);
    for pos in [SnapPosition::Left, SnapPosition::Right, SnapPosition::Top, SnapPosition::Bottom] {
        assert!(snap_inputs_valid(&target, 300, 400, &monitor, pos, 4));
        assert_eq!(
            snap_position_checked(&target, 300, 400, &monitor, pos, 4),
            Some(snap_position(&target, 300, 400, &monitor, pos, 4))
        );
    }
}
