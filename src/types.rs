//! The entities listed by the host process, and the modes of the interface.
use vstd::prelude::*;

verus! {

/// What a line of free-text input is for.
#[derive(Debug, Clone, Copy, PartialEq, Eq, Structural)]
pub enum InputPurpose {
    NewSession,
    RenameSession,
    AddTag,
    FilterByTag,
}

/// A destructive action awaiting confirmation.
#[derive(Debug, Clone, PartialEq, Eq)]
pub enum ConfirmAction {
    KillSession(String),
}

/// The mode that decides how a key is read.
#[derive(Debug, Clone, PartialEq, Eq)]
pub enum AppMode {
    Normal,
    Search,
    Input(InputPurpose),
    Confirm(ConfirmAction),
}

impl Default for AppMode {
    fn default() -> (r: AppMode)
        ensures
            r is Normal,
    {
        AppMode::Normal
    }
}

/// Which panel the navigation keys move in.
#[derive(Debug, Clone, Copy, PartialEq, Eq, Structural)]
pub enum FocusPanel {
    Sessions,
    Windows,
}

/// A session of the host process.
#[derive(Debug, Clone, PartialEq, Eq)]
pub struct Session {
    pub id: String,
    pub name: String,
    pub windows: usize,
    pub attached: usize,
    pub created: i64,
    pub last_attached: i64,
    pub group: Option<String>,
    pub path: String,
}

/// A window of a session.
#[derive(Debug, Clone, PartialEq, Eq)]
pub struct Window {
    pub id: String,
    pub session_id: String,
    pub index: usize,
    pub name: String,
    pub active: bool,
    pub active_command: String,
}

/// A pane of a window.
#[derive(Debug, Clone, PartialEq, Eq)]
pub struct Pane {
    pub id: String,
    pub window_id: String,
    pub session_id: String,
    pub index: usize,
    pub active: bool,
    pub current_command: String,
    pub current_path: String,
}

/// A session as plain values.
pub struct SessionView {
    pub id: Seq<char>,
    pub name: Seq<char>,
    pub windows: usize,
    pub attached: usize,
    pub created: i64,
    pub last_attached: i64,
    pub group: Option<Seq<char>>,
    pub path: Seq<char>,
}

/// A window as plain values.
pub struct WindowView {
    pub id: Seq<char>,
    pub session_id: Seq<char>,
    pub index: usize,
    pub name: Seq<char>,
    pub active: bool,
    pub active_command: Seq<char>,
}

/// A pane as plain values.
pub struct PaneView {
    pub id: Seq<char>,
    pub window_id: Seq<char>,
    pub session_id: Seq<char>,
    pub index: usize,
    pub active: bool,
    pub current_command: Seq<char>,
    pub current_path: Seq<char>,
}

impl View for Session {
    type V = SessionView;

    open spec fn view(&self) -> SessionView {
        SessionView {
            id: self.id@,
            name: self.name@,
            windows: self.windows,
            attached: self.attached,
            created: self.created,
            last_attached: self.last_attached,
            group: match self.group {
                Some(g) => Some(g@),
                None => None,
            },
            path: self.path@,
        }
    }
}

impl View for Window {
    type V = WindowView;

    open spec fn view(&self) -> WindowView {
        WindowView {
            id: self.id@,
            session_id: self.session_id@,
            index: self.index,
            name: self.name@,
            active: self.active,
            active_command: self.active_command@,
        }
    }
}

impl View for Pane {
    type V = PaneView;

    open spec fn view(&self) -> PaneView {
        PaneView {
            id: self.id@,
            window_id: self.window_id@,
            session_id: self.session_id@,
            index: self.index,
            active: self.active,
            current_command: self.current_command@,
            current_path: self.current_path@,
        }
    }
}

/// The names of a list of sessions, in order.
pub open spec fn names_of(sessions: Seq<Session>) -> Seq<Seq<char>> {
    sessions.map_values(|s: Session| s.name@)
}

} // verus!
