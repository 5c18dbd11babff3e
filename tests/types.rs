use tmx::types::{AppMode, ConfirmAction, InputPurpose, Pane, Session, Window};

#[test]
fn test_app_mode_default_is_normal() {
    assert_eq!(AppMode::default(), AppMode::Normal);
}

#[test]
fn test_mode_variants_construct() {
    let search = AppMode::Search;
    let input = AppMode::Input(InputPurpose::NewSession);
    let confirm = AppMode::Confirm(ConfirmAction::KillSession("demo".to_string()));

    assert_eq!(search, AppMode::Search);
    assert_eq!(input, AppMode::Input(InputPurpose::NewSession));
    assert_eq!(
        confirm,
        AppMode::Confirm(ConfirmAction::KillSession("demo".to_string()))
    );
}

#[test]
fn test_session_struct_fields() {
    let session = Session {
        id: "$0".to_string(),
        name: "work".to_string(),
        windows: 2,
        attached: 1,
        created: 1770744224,
        last_attached: 1770749593,
        group: None,
        path: "/tmp".to_string(),
    };

    assert_eq!(session.name, "work");
}

#[test]
fn test_window_struct_fields() {
    let window = Window {
        id: "@0".to_string(),
        session_id: "$0".to_string(),
        index: 0,
        name: "editor".to_string(),
        active: true,
        active_command: "vim".to_string(),
    };

    assert_eq!(window.name, "editor");
}

#[test]
fn test_pane_struct_fields() {
    let pane = Pane {
        id: "%0".to_string(),
        window_id: "@0".to_string(),
        session_id: "$0".to_string(),
        index: 0,
        active: true,
        current_command: "bash".to_string(),
        current_path: "/tmp".to_string(),
    };

    assert_eq!(pane.current_command, "bash");
}
