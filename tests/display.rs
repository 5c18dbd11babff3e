use tmx::display::{format_session_line, format_window_line, truncate_with_ellipsis};
use tmx::types::{Session, Window};

fn session(name: &str, windows: usize, attached: usize) -> Session {
    Session {
        id: format!("${name}"),
        name: name.to_string(),
        windows,
        attached,
        created: 0,
        last_attached: 0,
        group: None,
        path: "/tmp".to_string(),
    }
}

#[test]
fn session_line_full_width() {
    assert_eq!(format_session_line(&session("work", 2, 1), 80), "\u{25cf} work  2 windows  attached");
    assert_eq!(format_session_line(&session("dev", 12, 0), 80), "\u{25cb} dev  12 windows  detached");
}

#[test]
fn session_line_cjk_fits() {
    let line = format_session_line(&session("데모세션", 1, 0), 70);
    assert!(line.contains("데모세션"));
}

#[test]
fn session_line_cut_with_ellipsis() {
    let line = format_session_line(
        &session("extremely-long-session-name-that-should-be-truncated", 10, 0),
        20,
    );
    assert_eq!(line, "\u{25cb} extremely-long-se\u{2026}");
}

#[test]
fn window_line_marks_active() {
    let w = Window {
        id: "@0".to_string(),
        session_id: "$0".to_string(),
        index: 3,
        name: "editor".to_string(),
        active: true,
        active_command: "vim".to_string(),
    };
    assert_eq!(format_window_line(&w, 80), "3: editor* (vim)");
    let mut idle = w.clone();
    idle.active = false;
    assert_eq!(format_window_line(&idle, 80), "3: editor  (vim)");
    assert_eq!(format_window_line(&idle, 6), "3: ed\u{2026}");
}

#[test]
fn truncation_edges() {
    assert_eq!(truncate_with_ellipsis("abcdef", 0), "");
    assert_eq!(truncate_with_ellipsis("abc", 3), "abc");
    assert_eq!(truncate_with_ellipsis("abcd", 1), "\u{2026}");
    assert_eq!(truncate_with_ellipsis("abcdef", 4), "abc\u{2026}");
    assert_eq!(truncate_with_ellipsis("데모세션", 5), "데모\u{2026}");
    assert_eq!(truncate_with_ellipsis("데모세션", 4), "데\u{2026}");
}
