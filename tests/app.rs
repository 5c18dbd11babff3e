use tmx::app::{App, Command, Event, KeyCode, KeyEvent};
use tmx::tmux::parse_sessions;
use tmx::types::{AppMode, ConfirmAction, FocusPanel, InputPurpose, Session, Window};

fn make_key(code: KeyCode, ctrl: bool) -> Event {
    Event::Key(KeyEvent { code, ctrl, press: true })
}

fn ch(c: char) -> Event {
    make_key(KeyCode::Char(c), false)
}

fn make_session(name: &str) -> Session {
    Session {
        id: format!("${name}"),
        name: name.to_string(),
        windows: 1,
        attached: 0,
        created: 0,
        last_attached: 0,
        group: None,
        path: "/tmp".to_string(),
    }
}

fn type_text(app: &mut App, text: &str, now: u64) {
    for c in text.chars() {
        assert_eq!(app.handle_event(ch(c), now), Command::Nothing);
    }
}

#[test]
fn test_app_initial_state() {
    let app = App::new();
    assert!(!app.should_quit);
    assert_eq!(app.mode, AppMode::Normal);
    assert_eq!(app.selected, 0);
    assert!(app.sessions.is_empty());
}

#[test]
fn test_error_auto_clear() {
    let mut app = App::new();
    app.set_error("test error".to_string(), 10_000);
    assert!(app.error_message.is_some());

    app.tick_clear_errors(10_000);
    assert!(app.error_message.is_some(), "error should persist within 3s");

    app.error_time = Some(10_000 - 4_000);
    app.tick_clear_errors(10_000);
    assert!(app.error_message.is_none(), "error should clear after 3s");
}

#[test]
fn test_ignore_key_release_events() {
    let mut app = App::new();
    let release = Event::Key(KeyEvent { code: KeyCode::Char('q'), ctrl: false, press: false });
    assert_eq!(app.handle_event(release, 0), Command::Nothing);
    assert!(!app.should_quit);
}

#[test]
fn test_app_quit_on_q() {
    let mut app = App::new();
    app.handle_event(ch('q'), 0);
    assert!(app.should_quit);
}

#[test]
fn test_app_quit_on_ctrl_c() {
    let mut app = App::new();
    app.handle_event(make_key(KeyCode::Char('c'), true), 0);
    assert!(app.should_quit);
}

#[test]
fn test_vim_navigation() {
    let mut app = App::new();
    app.sessions = vec![make_session("alpha"), make_session("beta"), make_session("gamma")];

    app.handle_event(ch('j'), 0);
    assert_eq!(app.selected, 1);

    app.handle_event(ch('k'), 10);
    assert_eq!(app.selected, 0);

    app.handle_event(ch('G'), 20);
    assert_eq!(app.selected, 2);

    app.handle_event(ch('g'), 30);
    app.handle_event(ch('g'), 40);
    assert_eq!(app.selected, 0);
}

#[test]
fn test_enter_no_session_selected() {
    let mut app = App::new();
    let command = app.handle_event(make_key(KeyCode::Enter, false), 0);
    assert_eq!(command, Command::Nothing);
    assert_eq!(app.status_message, "No session selected");
    assert!(!app.should_quit);
}

#[test]
fn test_enter_inside_tmux_switch_fails_gracefully() {
    let mut app = App::new();
    app.sessions = vec![make_session("target")];
    let command = app.handle_event(make_key(KeyCode::Enter, false), 0);
    assert_eq!(command, Command::Open("target".to_string()));
    let refresh = app.complete(&command, Err("no client".to_string()), 5);
    assert!(!refresh);
    let has_error = app.error_message.as_ref().is_some_and(|m| m.contains("Failed to switch"));
    assert!(has_error || app.should_quit);
    assert_eq!(app.error_message.as_deref(), Some("Failed to switch: no client"));
    assert!(!app.should_quit);

    app.complete(&command, Ok(()), 6);
    assert!(app.should_quit);
}

#[test]
fn test_detach_no_session() {
    let mut app = App::new();
    app.handle_event(make_key(KeyCode::Char('D'), false), 0);
    assert_eq!(app.status_message, "No session selected");
}

#[test]
fn test_tab_switches_focus_panel() {
    let mut app = App::new();
    app.sessions = vec![make_session("alpha"), make_session("beta")];
    app.selected = 0;

    assert_eq!(app.focus, FocusPanel::Sessions);
    app.handle_event(make_key(KeyCode::Tab, false), 0);
    assert_eq!(app.focus, FocusPanel::Windows);
    app.handle_event(make_key(KeyCode::Tab, false), 0);
    assert_eq!(app.focus, FocusPanel::Sessions);
}

#[test]
fn test_tab_on_empty_sessions() {
    let mut app = App::new();
    app.handle_event(make_key(KeyCode::Tab, false), 0);
    assert!(app.expanded_sessions.is_empty());
}

#[test]
fn test_dd_enters_confirm_mode() {
    let mut app = App::new();
    app.sessions = vec![make_session("alpha")];

    app.handle_event(ch('d'), 1_000);
    assert_eq!(app.mode, AppMode::Normal);

    app.handle_event(ch('d'), 1_200);
    assert_eq!(app.mode, AppMode::Confirm(ConfirmAction::KillSession("alpha".to_string())));
}

#[test]
fn test_help_overlay_toggle() {
    let mut app = App::new();
    assert!(!app.show_help);
    app.handle_event(ch('?'), 0);
    assert!(app.show_help);
    app.handle_event(ch('?'), 0);
    assert!(!app.show_help);
}

#[test]
fn test_help_overlay_dismiss_on_any_key() {
    let mut app = App::new();
    app.show_help = true;
    app.handle_event(ch('j'), 0);
    assert!(!app.show_help);
    assert!(!app.should_quit, "dismissing help should not quit");
}

#[test]
fn test_resize_event_handled() {
    let mut app = App::new();
    assert_eq!(app.handle_event(Event::Resize(80, 24), 0), Command::Nothing);
    assert!(!app.should_quit);
}

#[test]
fn cursor_stays_in_every_view() {
    let mut app = App::new();
    app.sessions = vec![make_session("alpha"), make_session("beta"), make_session("gamma")];
    app.config.add_tag("beta", "x");
    app.config.add_tag("gamma", "x");
    let keys = ['j', 'j', 'j', 'j', 'G', 'k', 'j', 'g', 'g', 'G', 'j'];
    let mut now = 0;
    for &k in &keys {
        now += 700;
        app.handle_event(ch(k), now);
        assert!(app.selected < app.visible_session_count());
    }
    app.tag_filter = Some("x".to_string());
    app.selected = 0;
    for &k in &keys {
        now += 700;
        app.handle_event(ch(k), now);
        assert!(app.selected < app.visible_session_count());
        assert_eq!(app.visible_session_count(), 2);
    }
    app.tag_filter = None;
    app.handle_event(ch('/'), now);
    type_text(&mut app, "a", now);
    for _ in 0..5 {
        app.handle_event(make_key(KeyCode::Down, false), now);
        assert!(app.selected < app.visible_session_count());
    }
    app.handle_event(make_key(KeyCode::Esc, false), now);
    assert_eq!(app.mode, AppMode::Normal);
    assert!(app.selected < app.visible_session_count());

    let mut empty = App::new();
    for &k in &keys {
        now += 700;
        empty.handle_event(ch(k), now);
        assert_eq!(empty.selected, 0);
    }
}

#[test]
fn other_key_between_g_presses_disarms_jump() {
    let mut app = App::new();
    app.sessions = vec![make_session("a"), make_session("b"), make_session("c")];
    app.handle_event(ch('G'), 0);
    assert_eq!(app.selected, 2);
    app.handle_event(ch('g'), 100);
    assert_eq!(app.last_g_press, Some(100));
    app.handle_event(ch('x'), 150);
    assert_eq!(app.last_g_press, None);
    app.handle_event(ch('g'), 200);
    assert_eq!(app.selected, 2);
    assert_eq!(app.last_g_press, Some(200));
}

#[test]
fn stale_g_press_starts_over() {
    let mut app = App::new();
    app.sessions = vec![make_session("a"), make_session("b")];
    app.handle_event(ch('G'), 0);
    app.handle_event(ch('g'), 1_000);
    app.handle_event(ch('g'), 1_501);
    assert_eq!(app.selected, 1);
    assert_eq!(app.last_g_press, Some(1_501));
    app.handle_event(ch('g'), 2_001);
    assert_eq!(app.selected, 0);
    assert_eq!(app.last_g_press, None);
}

#[test]
fn stale_d_press_starts_over() {
    let mut app = App::new();
    app.sessions = vec![make_session("a")];
    app.handle_event(ch('d'), 0);
    app.handle_event(ch('d'), 501);
    assert_eq!(app.mode, AppMode::Normal);
    assert_eq!(app.status_message, "Kill session: press d again");
}

#[test]
fn create_then_rename_round_trip() {
    let mut app = App::new();
    app.handle_event(ch('n'), 0);
    assert_eq!(app.mode, AppMode::Input(InputPurpose::NewSession));
    type_text(&mut app, "alpha", 0);
    let command = app.handle_event(make_key(KeyCode::Enter, false), 0);
    assert_eq!(command, Command::Create("alpha".to_string()));
    assert_eq!(app.mode, AppMode::Normal);
    assert!(app.complete(&command, Ok(()), 0));
    assert_eq!(app.status_message, "Created session `alpha`");
    let listing = "$9\x01alpha\x013\x010\x011\x010\x01\x01/tmp\n";
    app.refresh_sessions_with(parse_sessions(listing)).unwrap();
    assert_eq!(app.sessions.len(), 1);
    assert_eq!(app.sessions[0].name, "alpha");
    assert_eq!(app.sessions[0].windows, 3);

    app.handle_event(ch('r'), 0);
    assert_eq!(app.input_buffer, "alpha");
    for _ in 0..5 {
        app.handle_event(make_key(KeyCode::Backspace, false), 0);
    }
    assert_eq!(app.input_buffer, "");
    type_text(&mut app, "beta", 0);
    let command = app.handle_event(make_key(KeyCode::Enter, false), 0);
    assert_eq!(
        command,
        Command::Rename { from: "alpha".to_string(), to: "beta".to_string() }
    );
    assert!(app.complete(&command, Ok(()), 0));
    assert_eq!(app.status_message, "Renamed `alpha` \u{2192} `beta`");
    let listing = "$9\x01beta\x013\x010\x011\x010\x01\x01/tmp\n";
    app.refresh_sessions_with(parse_sessions(listing)).unwrap();
    assert!(app.sessions.iter().all(|s| s.name != "alpha"));
    assert_eq!(app.sessions[0].name, "beta");
    assert_eq!(app.sessions[0].id, "$9");
}

#[test]
fn kill_flow_confirms_and_removes() {
    let mut app = App::new();
    app.sessions = vec![make_session("alpha")];
    app.handle_event(ch('d'), 1_000);
    app.handle_event(ch('d'), 1_400);
    assert_eq!(app.mode, AppMode::Confirm(ConfirmAction::KillSession("alpha".to_string())));
    assert_eq!(app.status_message, "Kill `alpha`? (y/n)");
    app.handle_event(ch('z'), 1_500);
    assert_eq!(app.mode, AppMode::Confirm(ConfirmAction::KillSession("alpha".to_string())));
    let command = app.handle_event(ch('y'), 1_600);
    assert_eq!(command, Command::Kill("alpha".to_string()));
    assert_eq!(app.mode, AppMode::Normal);
    assert!(app.complete(&command, Ok(()), 1_700));
    app.refresh_sessions_with(parse_sessions("")).unwrap();
    assert!(app.sessions.is_empty());
    assert_eq!(app.selected, 0);
}

#[test]
fn confirm_declined_keeps_session() {
    let mut app = App::new();
    app.sessions = vec![make_session("alpha")];
    app.handle_event(ch('d'), 0);
    app.handle_event(ch('d'), 10);
    assert_eq!(app.handle_event(make_key(KeyCode::Esc, false), 20), Command::Nothing);
    assert_eq!(app.mode, AppMode::Normal);
    assert_eq!(app.status_message, "Cancelled");
}

#[test]
fn tag_filter_toggles() {
    let mut app = App::new();
    app.sessions = vec![make_session("work"), make_session("personal")];
    app.config.add_tag("work", "a");
    app.config.add_tag("personal", "b");
    app.handle_event(ch('T'), 0);
    assert_eq!(app.mode, AppMode::Input(InputPurpose::FilterByTag));
    type_text(&mut app, "a", 0);
    app.handle_event(make_key(KeyCode::Enter, false), 0);
    assert_eq!(app.tag_filter.as_deref(), Some("a"));
    let visible: Vec<&str> = app
        .tag_filtered_sessions()
        .iter()
        .map(|&i| app.sessions[i].name.as_str())
        .collect();
    assert_eq!(visible, vec!["work"]);
    assert_eq!(app.visible_session_count(), 1);

    app.handle_event(ch('T'), 0);
    assert_eq!(app.tag_filter, None);
    assert_eq!(app.selected, 0);
    assert_eq!(app.visible_session_count(), 2);
    assert_eq!(app.status_message, "Tag filter `a` cleared");
}

#[test]
fn tag_filter_without_tags_stays_normal() {
    let mut app = App::new();
    app.handle_event(ch('T'), 0);
    assert_eq!(app.mode, AppMode::Normal);
    assert_eq!(app.status_message, "No tags defined");
}

#[test]
fn q_is_text_outside_normal_mode() {
    let mut app = App::new();
    app.sessions = vec![make_session("alpha")];
    app.handle_event(ch('n'), 0);
    app.handle_event(ch('q'), 0);
    assert!(!app.should_quit);
    assert_eq!(app.input_buffer, "q");
    assert_eq!(app.mode, AppMode::Input(InputPurpose::NewSession));
    app.handle_event(make_key(KeyCode::Esc, false), 0);
    assert_eq!(app.mode, AppMode::Normal);

    app.handle_event(ch('d'), 0);
    app.handle_event(ch('d'), 1);
    app.handle_event(ch('q'), 2);
    assert!(!app.should_quit);
    assert_eq!(app.mode, AppMode::Confirm(ConfirmAction::KillSession("alpha".to_string())));

    app.handle_event(ch('n'), 3);
    app.handle_event(ch('q'), 4);
    assert!(app.should_quit);
}

#[test]
fn blank_input_is_refused() {
    let mut app = App::new();
    app.handle_event(ch('n'), 0);
    type_text(&mut app, "   ", 0);
    assert_eq!(app.handle_event(make_key(KeyCode::Enter, false), 0), Command::Nothing);
    assert_eq!(app.status_message, "Session name required");
    assert_eq!(app.mode, AppMode::Normal);

    app.handle_event(ch('n'), 0);
    type_text(&mut app, "  x y ", 0);
    assert_eq!(
        app.handle_event(make_key(KeyCode::Enter, false), 0),
        Command::Create("x y".to_string())
    );
}

#[test]
fn add_tag_updates_config() {
    let mut app = App::new();
    app.sessions = vec![make_session("alpha")];
    app.handle_event(ch('t'), 0);
    assert_eq!(app.mode, AppMode::Input(InputPurpose::AddTag));
    type_text(&mut app, "dev", 0);
    assert_eq!(app.handle_event(make_key(KeyCode::Enter, false), 0), Command::SaveConfig);
    assert_eq!(app.config.get_tags("alpha"), vec!["dev"]);
    assert_eq!(app.status_message, "Tagged `alpha` with `dev`");
}

#[test]
fn search_narrows_and_opens() {
    let mut app = App::new();
    app.sessions = vec![make_session("work"), make_session("dev"), make_session("web")];
    app.handle_event(ch('/'), 0);
    assert_eq!(app.mode, AppMode::Search);
    assert_eq!(app.visible_session_count(), 3);
    type_text(&mut app, "dev", 0);
    assert_eq!(app.visible_session_count(), 1);
    assert_eq!(app.selected, 0);
    let command = app.handle_event(make_key(KeyCode::Enter, false), 0);
    assert_eq!(command, Command::Open("dev".to_string()));
    assert_eq!(app.mode, AppMode::Normal);
    assert!(!app.search_active);
    assert!(app.filtered_results.is_empty());
}

#[test]
fn search_without_match_opens_nothing() {
    let mut app = App::new();
    app.sessions = vec![make_session("work")];
    app.handle_event(ch('/'), 0);
    type_text(&mut app, "zzz", 0);
    assert_eq!(app.visible_session_count(), 0);
    assert_eq!(app.handle_event(make_key(KeyCode::Enter, false), 0), Command::Nothing);
    assert_eq!(app.status_message, "No match to attach");
}

#[test]
fn window_focus_targets_window() {
    let mut app = App::new();
    app.sessions = vec![make_session("work")];
    let win = |i: usize| Window {
        id: format!("@{i}"),
        session_id: "$work".to_string(),
        index: i + 3,
        name: format!("w{i}"),
        active: i == 0,
        active_command: "sh".to_string(),
    };
    assert_eq!(app.windows_to_fetch(), Some("work".to_string()));
    app.cache_windows("work".to_string(), vec![win(0), win(1)]);
    assert_eq!(app.windows_to_fetch(), None);
    app.handle_event(make_key(KeyCode::Tab, false), 0);
    app.handle_event(ch('j'), 0);
    assert_eq!(app.selected_window, 1);
    assert_eq!(app.preview_target(), Some("work:4".to_string()));
    assert_eq!(app.handle_event(make_key(KeyCode::Enter, false), 0), Command::Open("work:4".to_string()));
    app.handle_event(make_key(KeyCode::Tab, false), 0);
    assert_eq!(app.preview_target(), Some("work:0".to_string()));
}

#[test]
fn failed_refresh_keeps_list() {
    let mut app = App::new();
    app.sessions = vec![make_session("a"), make_session("b")];
    app.selected = 1;
    let err = tmx::tmux::TmuxError::TimedOut;
    assert_eq!(app.refresh_sessions_with(Err(err.clone())), Err(err));
    assert_eq!(app.sessions.len(), 2);
    app.refresh_sessions_with(parse_sessions("$a\x01a\x011\x010\x01\x01\x01\x01/\n")).unwrap();
    assert_eq!(app.selected, 0);
}

#[test]
fn failed_commands_set_errors() {
    let mut app = App::new();
    let kill = Command::Kill("x".to_string());
    assert!(!app.complete(&kill, Err("boom".to_string()), 42));
    assert_eq!(app.error_message.as_deref(), Some("Failed to kill: boom"));
    assert_eq!(app.error_time, Some(42));
    let detach = Command::Detach("x".to_string());
    assert!(app.complete(&detach, Ok(()), 43));
    assert_eq!(app.status_message, "Detached clients from `x`");
}

#[test]
fn unicode_whitespace_is_trimmed() {
    let mut app = App::new();
    app.handle_event(ch('n'), 0);
    type_text(&mut app, "\u{3000}\tname\u{a0}\u{2003}", 0);
    assert_eq!(
        app.handle_event(make_key(KeyCode::Enter, false), 0),
        Command::Create("name".to_string())
    );
    for c in ['\u{9}', '\u{a}', '\u{b}', '\u{c}', '\u{d}', ' ', '\u{85}', '\u{a0}', '\u{1680}', '\u{2000}', '\u{200a}', '\u{2028}', '\u{2029}', '\u{202f}', '\u{205f}', '\u{3000}'] {
        assert!(c.is_whitespace());
        app.handle_event(ch('n'), 0);
        app.handle_event(ch(c), 0);
        assert_eq!(app.handle_event(make_key(KeyCode::Enter, false), 0), Command::Nothing);
    }
    for c in ['\u{200b}', '\u{180e}', '\u{feff}', 'x'] {
        assert!(!c.is_whitespace());
        app.handle_event(ch('n'), 0);
        app.handle_event(ch(c), 0);
        assert_eq!(app.handle_event(make_key(KeyCode::Enter, false), 0), Command::Create(c.to_string()));
    }
}

#[test]
fn quit_keys_act_through_help_overlay() {
    let mut app = App::new();
    app.show_help = true;
    assert_eq!(app.handle_event(ch('q'), 0), Command::Nothing);
    assert!(app.should_quit);

    let mut app = App::new();
    app.show_help = true;
    app.handle_event(make_key(KeyCode::Char('c'), true), 0);
    assert!(app.should_quit);
}

#[test]
fn confirm_ignores_other_keys() {
    let mut app = App::new();
    app.sessions = vec![make_session("alpha"), make_session("beta")];
    app.handle_event(ch('j'), 0);
    app.handle_event(ch('d'), 1_000);
    app.handle_event(ch('d'), 1_100);
    let status = app.status_message.clone();
    for c in ['q', 'j', 'x'] {
        assert_eq!(app.handle_event(ch(c), 1_200), Command::Nothing);
        assert_eq!(app.mode, AppMode::Confirm(ConfirmAction::KillSession("beta".to_string())));
        assert_eq!(app.selected, 1);
        assert_eq!(app.status_message, status);
        assert!(!app.should_quit);
    }
}

#[test]
fn blank_rename_and_tag_are_refused() {
    let mut app = App::new();
    app.sessions = vec![make_session("alpha")];
    app.handle_event(ch('r'), 0);
    for _ in 0..5 {
        app.handle_event(make_key(KeyCode::Backspace, false), 0);
    }
    app.handle_event(ch(' '), 0);
    assert_eq!(app.handle_event(make_key(KeyCode::Enter, false), 0), Command::Nothing);
    assert_eq!(app.status_message, "Session name required");
    app.handle_event(ch('t'), 0);
    assert_eq!(app.handle_event(make_key(KeyCode::Enter, false), 0), Command::Nothing);
    assert_eq!(app.status_message, "Tag name required");
    assert!(app.config.tags.is_empty());
}

#[test]
fn preview_refresh_rule() {
    let mut app = App::new();
    app.sessions = vec![make_session("a"), make_session("b")];
    assert!(!app.should_refresh_preview(0, ch('x')));
    assert!(app.should_refresh_preview(0, Event::Resize(10, 10)));
    app.handle_event(ch('j'), 0);
    assert!(app.should_refresh_preview(0, ch('j')));
}
