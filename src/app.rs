//! Application state and the key-driven state machine. Time is passed in as
//! milliseconds; work on the host process is handed back as a `Command` and
//! its outcome reported through `complete`.
use vstd::prelude::*;

use crate::config::{contains_string, names_with, strings_view, Config};
use crate::search::{fuzzy_match_sessions, is_filter_result, MatchResult};
use crate::text::{chars_of, pop_char, push_char, string_of_all, trim_chars, trimmed};
use crate::tmux::TmuxError;
use crate::types::{
    names_of, AppMode, ConfirmAction, FocusPanel, InputPurpose, Session, Window,
};

verus! {

/// Two presses of one key at most this many milliseconds apart form a double tap.
pub const DOUBLE_TAP_MS: u64 = 500;

/// A transient error is cleared once it is this many milliseconds old.
pub const ERROR_TTL_MS: u64 = 3000;

/// A key, as far as the state machine reads it.
#[derive(Debug, Clone, Copy, PartialEq, Eq, Structural)]
pub enum KeyCode {
    Char(char),
    Enter,
    Esc,
    Backspace,
    Tab,
    Up,
    Down,
    Other,
}

/// A key event: the key, whether control (alone) was held, and whether this
/// is a press (rather than a release or a repeat).
#[derive(Debug, Clone, Copy, PartialEq, Eq, Structural)]
pub struct KeyEvent {
    pub code: KeyCode,
    pub ctrl: bool,
    pub press: bool,
}

/// An input event.
#[derive(Debug, Clone, Copy, PartialEq, Eq, Structural)]
pub enum Event {
    Key(KeyEvent),
    Resize(u16, u16),
    Other,
}

/// Work on the host process that a key asks for.
#[derive(Debug, Clone, PartialEq, Eq)]
pub enum Command {
    Nothing,
    /// Detach every client of the session.
    Detach(String),
    /// Open the target: switch the client when inside the host, attach otherwise.
    Open(String),
    /// Create a detached session of this name.
    Create(String),
    /// Rename a session.
    Rename { from: String, to: String },
    /// Kill the session.
    Kill(String),
    /// Write the configuration back.
    SaveConfig,
}

/// A name with its cached windows.
#[derive(Debug, Clone, PartialEq, Eq)]
pub struct CacheEntry {
    pub session: String,
    pub windows: Vec<Window>,
}

/// Windows per session name; a later entry for a name replaces an earlier one.
#[derive(Debug, Clone, PartialEq, Eq)]
pub struct WindowCache {
    pub entries: Vec<CacheEntry>,
}

/// The windows cached for `name`: those of its last entry.
pub open spec fn cached(entries: Seq<CacheEntry>, name: Seq<char>) -> Option<Seq<Window>>
    decreases entries.len(),
{
    if entries.len() == 0 {
        None
    } else if entries.last().session@ == name {
        Some(entries.last().windows@)
    } else {
        cached(entries.drop_last(), name)
    }
}

impl WindowCache {
    /// An empty cache.
    pub fn new() -> (r: WindowCache)
        ensures
            r.entries@.len() == 0,
    {
        WindowCache { entries: Vec::new() }
    }

    /// The windows cached for `name`.
    pub fn get(&self, name: &str) -> (r: Option<&Vec<Window>>)
        ensures
            r matches Some(w) ==> cached(self.entries@, name@) == Some(w@),
            r is None ==> cached(self.entries@, name@) is None,
    {
        let key = name.to_owned();
        let mut i: usize = self.entries.len();
        assert(self.entries@.take(i as int) =~= self.entries@);
        while i > 0
            invariant
                i <= self.entries@.len(),
                key@ == name@,
                cached(self.entries@, name@) == cached(self.entries@.take(i as int), name@),
            decreases i,
        {
            let ghost pre = self.entries@.take(i as int);
            assert(pre.drop_last() =~= self.entries@.take(i - 1));
            if self.entries[i - 1].session == key {
                return Some(&self.entries[i - 1].windows);
            }
            i = i - 1;
        }
        None
    }

    /// Records the windows of `name`, replacing what was cached for it.
    pub fn insert(&mut self, name: String, windows: Vec<Window>)
        ensures
            cached(final(self).entries@, name@) == Some(windows@),
            forall|k: Seq<char>| k != name@ ==> cached(final(self).entries@, k) == cached(
                old(self).entries@,
                k,
            ),
    {
        let ghost before = self.entries@;
        self.entries.push(CacheEntry { session: name, windows });
        assert(self.entries@.drop_last() =~= before);
    }
}

/// Whether a press at `now` completes a double tap begun at `last`: the
/// earlier press is at most the double-tap window old (a clock that went
/// back counts as no time).
pub open spec fn double_tap(last: Option<u64>, now: u64) -> bool {
    last matches Some(t) && now as int <= t as int + DOUBLE_TAP_MS as int
}

/// Whether a press at `now` completes a double tap begun at `last`.
pub fn is_double_tap(last_press: Option<u64>, now: u64) -> (r: bool)
    ensures
        r == double_tap(last_press, now),
{
    match last_press {
        Some(t) => now <= t || now - t <= DOUBLE_TAP_MS,
        None => false,
    }
}

/// The positions of the sessions whose names are in `tagged`, in order.
pub open spec fn tagged_positions(ss: Seq<Session>, tagged: Seq<Seq<char>>) -> Seq<usize>
    decreases ss.len(),
{
    if ss.len() == 0 {
        Seq::empty()
    } else if tagged.contains(ss.last().name@) {
        tagged_positions(ss.drop_last(), tagged).push((ss.len() - 1) as usize)
    } else {
        tagged_positions(ss.drop_last(), tagged)
    }
}

/// `0, 1, ..., n - 1`.
pub open spec fn all_positions(n: nat) -> Seq<usize> {
    Seq::new(n, |i: int| i as usize)
}

/// The smaller of two integers.
pub open spec fn min_of(a: int, b: int) -> int {
    if a < b {
        a
    } else {
        b
    }
}

/// The character of the decimal digit `d`.
pub open spec fn digit_char(d: nat) -> char {
    ((48 + d) as u8) as char
}

/// The decimal digits of `n`, most significant first, without leading zeros.
pub open spec fn decimal(n: nat) -> Seq<char>
    decreases n,
{
    if n < 10 {
        seq![digit_char(n)]
    } else {
        decimal(n / 10).push(digit_char(n % 10))
    }
}

/// Appends the decimal digits of `n`.
pub fn push_decimal(s: &mut String, n: usize)
    ensures
        final(s)@ == old(s)@ + decimal(n as nat),
    decreases n,
{
    if n >= 10 {
        push_decimal(s, n / 10);
    }
    let d = (48 + n % 10) as u8;
    push_char(s, d as char);
    assert(s@ =~= old(s)@ + decimal(n as nat));
}

/// The two pieces one after the other.
fn prefixed(a: &str, b: &str) -> (r: String)
    ensures
        r@ == a@ + b@,
{
    let mut r = a.to_owned();
    r.append(b);
    r
}

/// The three pieces one after the other.
fn joined(a: &str, b: &str, c: &str) -> (r: String)
    ensures
        r@ == a@ + b@ + c@,
{
    let mut r = a.to_owned();
    r.append(b);
    r.append(c);
    r
}

/// The double-tap timers after a key in normal mode, and what the key completes.
pub struct GestureStep {
    pub last_g: Option<u64>,
    pub last_d: Option<u64>,
    /// The key completed `g g`: jump to the first row.
    pub jump_first: bool,
    /// The key completed `d d`: ask to kill the selected session.
    pub confirm_kill: bool,
}

/// How a key pressed at `now` in normal mode moves the double-tap timers:
/// `g` and `d` arm their own gesture, or complete it while it is fresh, and
/// disarm the other one; every other key disarms both.
pub open spec fn gesture_step(last_g: Option<u64>, last_d: Option<u64>, key: KeyEvent, now: u64) -> GestureStep {
    if key.code == KeyCode::Char('c') && key.ctrl {
        GestureStep { last_g: None, last_d: None, jump_first: false, confirm_kill: false }
    } else if key.code == KeyCode::Char('g') {
        if double_tap(last_g, now) {
            GestureStep { last_g: None, last_d: None, jump_first: true, confirm_kill: false }
        } else {
            GestureStep { last_g: Some(now), last_d: None, jump_first: false, confirm_kill: false }
        }
    } else if key.code == KeyCode::Char('d') {
        if double_tap(last_d, now) {
            GestureStep { last_g: None, last_d: None, jump_first: false, confirm_kill: true }
        } else {
            GestureStep { last_g: None, last_d: Some(now), jump_first: false, confirm_kill: false }
        }
    } else {
        GestureStep { last_g: None, last_d: None, jump_first: false, confirm_kill: false }
    }
}

/// The key ends the program in normal mode: `q`, or control and `c`.
pub open spec fn is_quit_key(key: KeyEvent) -> bool {
    (key.code == KeyCode::Char('c') && key.ctrl) || key.code == KeyCode::Char('q')
}

/// The key may leave normal mode (into input, search or confirmation).
pub open spec fn opens_mode(key: KeyEvent) -> bool {
    !(key.code == KeyCode::Char('c') && key.ctrl) && (key.code == KeyCode::Char('d')
        || key.code == KeyCode::Char('n') || key.code == KeyCode::Char('r') || key.code
        == KeyCode::Char('/') || key.code == KeyCode::Char('t') || key.code == KeyCode::Char('T'))
}

/// No entry of the table has a tag.
pub open spec fn no_tags(t: crate::config::TableView) -> bool {
    forall|i: int| 0 <= i < t.len() ==> (#[trigger] t[i]).1.len() == 0
}

/// The strings separated by a comma and a space.
fn join_with_comma(v: &Vec<String>) -> String {
    let mut out = String::new();
    let mut i: usize = 0;
    while i < v.len()
        invariant
            i <= v@.len(),
        decreases v@.len() - i,
    {
        if i > 0 {
            out.append(", ");
        }
        out.append(v[i].as_str());
        i = i + 1;
    }
    out
}

/// The key confirms: `y` or Enter.
pub open spec fn is_yes(key: KeyEvent) -> bool {
    key.code == KeyCode::Char('y') || key.code == KeyCode::Enter
}

/// The key declines: `n` or Esc.
pub open spec fn is_no(key: KeyEvent) -> bool {
    key.code == KeyCode::Char('n') || key.code == KeyCode::Esc
}

/// What committing the input of `purpose` did, from `a` to `b`, returning `r`:
/// an input that trims to nothing is refused (for the tag filter it clears
/// the filter); otherwise the purpose's command, or for tags the change to
/// the configuration and the filter.
pub open spec fn committed(a: App, purpose: InputPurpose, b: App, r: Command) -> bool {
    let v = trimmed(a.input_buffer@);
    match purpose {
        InputPurpose::NewSession => if v.len() == 0 {
            r is Nothing && b.status_message@ == "Session name required"@
        } else {
            r matches Command::Create(x) && x@ == v
        },
        InputPurpose::RenameSession => if v.len() == 0 {
            r is Nothing && b.status_message@ == "Session name required"@
        } else {
            match a.selected_name() {
                Some(n) => r matches Command::Rename { from, to } && from@ == n && to@ == v,
                None => r is Nothing && b.status_message@ == "No session selected"@,
            }
        },
        InputPurpose::AddTag => if v.len() == 0 {
            r is Nothing && b.config == a.config && b.status_message@ == "Tag name required"@
        } else {
            match a.selected_name() {
                Some(n) => r is SaveConfig && b.config.tags@ == crate::config::table_with_tag(
                    a.config.tags@,
                    n,
                    v,
                ),
                None => r is Nothing && b.config == a.config && b.status_message@
                    == "No session selected"@,
            }
        },
        InputPurpose::FilterByTag => r is Nothing && b.selected == 0 && if v.len() == 0 {
            b.tag_filter is None && b.status_message@ == "Tag filter cleared"@
        } else {
            b.tag_filter matches Some(t) && t@ == v
        },
    }
}

/// The event is a key press, the only kind that acts.
pub open spec fn acts(event: Event) -> bool {
    event matches Event::Key(k) && k.press
}

/// The event is a key press that reaches the mode's handler: the help
/// overlay is closed, or the key is `?`, or it is a quit key in normal mode,
/// which acts whatever is shown.
pub open spec fn reaches_mode(a: App, event: Event) -> bool {
    acts(event) && (!a.show_help || event->Key_0.code == KeyCode::Char('?') || (a.mode is Normal
        && is_quit_key(event->Key_0)))
}

/// What a key pressed at `now` in normal mode does, taking state `a` to `b`
/// and asking for `r`.
pub open spec fn normal_key_effect(a: App, key: KeyEvent, now: u64, b: App, r: Command) -> bool {
    let gs = gesture_step(a.last_g_press, a.last_d_press, key, now);
    let code = key.code;
    let count = a.visible_count();
    &&& b.last_g_press == gs.last_g
    &&& b.last_d_press == gs.last_d
    &&& b.should_quit == (a.should_quit || is_quit_key(key))
    &&& (is_quit_key(key) ==> r is Nothing)
    &&& (gs.jump_first && a.focus == FocusPanel::Sessions ==> b.selected == 0)
    &&& (gs.confirm_kill ==> match a.selected_name() {
        Some(n) => b.mode matches AppMode::Confirm(ConfirmAction::KillSession(k)) && k@ == n,
        None => b.mode is Normal,
    })
    &&& (!opens_mode(key) ==> b.mode is Normal)
    &&& (code == KeyCode::Char('d') && !gs.confirm_kill ==> b.mode is Normal)
    &&& (!(code == KeyCode::Enter || code == KeyCode::Char('D')) ==> r is Nothing)
    &&& (code == KeyCode::Enter ==> match a.attach_target_spec() {
        Some(t) => r matches Command::Open(x) && x@ == t,
        None => r is Nothing,
    })
    &&& (code == KeyCode::Char('D') ==> match a.selected_name() {
        Some(n) => r matches Command::Detach(x) && x@ == n,
        None => r is Nothing,
    })
    &&& ((code == KeyCode::Char('j') || code == KeyCode::Down) && a.focus == FocusPanel::Sessions
        ==> b.selected == if count == 0 {
        0
    } else {
        min_of(a.selected + 1, count - 1)
    })
    &&& ((code == KeyCode::Char('k') || code == KeyCode::Up) && a.focus == FocusPanel::Sessions
        ==> b.selected == if a.selected > 0 {
        a.selected - 1
    } else {
        0
    })
    &&& (code == KeyCode::Char('G') && a.focus == FocusPanel::Sessions ==> b.selected == if count
        == 0 {
        0
    } else {
        count - 1
    })
    &&& (code == KeyCode::Char('n') ==> b.mode == AppMode::Input(InputPurpose::NewSession)
        && b.input_buffer@.len() == 0)
    &&& (code == KeyCode::Char('r') ==> match a.selected_name() {
        Some(n) => b.mode == AppMode::Input(InputPurpose::RenameSession) && b.input_buffer@ == n,
        None => b.mode is Normal,
    })
    &&& (code == KeyCode::Char('/') ==> b.mode is Search && b.search_active && b.focus
        == FocusPanel::Sessions && b.input_buffer@.len() == 0 && b.selected == 0
        && is_filter_result(names_of(b.sessions@), b.input_buffer@, b.filtered_results@))
    &&& (code == KeyCode::Char('t') ==> match a.selected_name() {
        Some(_) => b.mode == AppMode::Input(InputPurpose::AddTag) && b.input_buffer@.len() == 0,
        None => b.mode is Normal,
    })
    &&& (code == KeyCode::Char('T') && a.tag_filter is Some ==> b.tag_filter is None && b.selected
        == 0 && b.mode is Normal)
    &&& (code == KeyCode::Char('T') && a.tag_filter is None ==> if no_tags(a.config.tags@) {
        b.mode is Normal
    } else {
        b.mode == AppMode::Input(InputPurpose::FilterByTag) && b.input_buffer@.len() == 0
    })
    &&& (code == KeyCode::Tab ==> b.focus != a.focus)
    &&& (code == KeyCode::Char('?') ==> b.show_help == !a.show_help)
    &&& b.sessions == a.sessions
    &&& b.config == a.config
    &&& b.session_windows == a.session_windows
    &&& b.error_message == a.error_message
    &&& b.error_time == a.error_time
    &&& b.preview_content == a.preview_content
    &&& b.expanded_sessions == a.expanded_sessions
    &&& (code != KeyCode::Char('/') ==> b.search_active == a.search_active && b.filtered_results
        == a.filtered_results)
    &&& (!(code == KeyCode::Char('T') && a.tag_filter is Some) ==> b.tag_filter == a.tag_filter)
    &&& (!(code == KeyCode::Tab || code == KeyCode::Char('/')) ==> b.focus == a.focus)
    &&& (code != KeyCode::Char('?') ==> b.show_help == a.show_help)
    &&& (!moves_cursor(code) && !gs.jump_first ==> b.selected == a.selected)
    &&& (a.focus == FocusPanel::Windows && is_nav_key(code) ==> b.selected == a.selected)
    &&& (gs.jump_first && a.focus == FocusPanel::Windows ==> b.selected == a.selected
        && b.selected_window == 0)
    &&& (!is_nav_key(code) && !gs.jump_first ==> b.selected_window == a.selected_window)
    &&& (a.focus == FocusPanel::Windows && (code == KeyCode::Char('j') || code == KeyCode::Down)
        ==> b.selected_window == match a.selected_windows_spec() {
        Some(w) => if w.len() > 0 {
            min_of(a.selected_window + 1, w.len() - 1)
        } else {
            a.selected_window as int
        },
        None => a.selected_window as int,
    })
    &&& (a.focus == FocusPanel::Windows && (code == KeyCode::Char('k') || code == KeyCode::Up)
        ==> b.selected_window == if a.selected_window > 0 {
        a.selected_window - 1
    } else {
        0
    })
    &&& (a.focus == FocusPanel::Windows && code == KeyCode::Char('G') ==> b.selected_window
        == match a.selected_windows_spec() {
        Some(w) => if w.len() > 0 {
            w.len() - 1
        } else {
            a.selected_window as int
        },
        None => a.selected_window as int,
    })
    &&& (!opens_mode(key) ==> b.input_buffer == a.input_buffer)
    &&& (code == KeyCode::Char('d') && !gs.confirm_kill ==> b.input_buffer == a.input_buffer)
    &&& (code == KeyCode::Enter && a.attach_target_spec() is None ==> b.status_message@
        == "No session selected"@)
    &&& ((code == KeyCode::Char('D') || code == KeyCode::Char('t') || gs.confirm_kill)
        && a.selected_name() is None ==> b.status_message@ == "No session selected"@)
    &&& (code == KeyCode::Char('r') && a.selected_name() is None ==> b.status_message@
        == "No session selected to rename"@)
    &&& (code == KeyCode::Char('T') && a.tag_filter is None && no_tags(a.config.tags@)
        ==> b.status_message@ == "No tags defined"@)
}

/// The navigation keys: down, up and last.
pub open spec fn is_nav_key(code: KeyCode) -> bool {
    code == KeyCode::Char('j') || code == KeyCode::Down || code == KeyCode::Char('k') || code
        == KeyCode::Up || code == KeyCode::Char('G')
}

/// The keys that may move the session cursor besides a completed `g g`.
pub open spec fn moves_cursor(code: KeyCode) -> bool {
    is_nav_key(code) || code == KeyCode::Char('T') || code == KeyCode::Char('/')
}

/// What a key does in search mode, taking `a` to `b` and asking for `r`.
pub open spec fn search_key_effect(a: App, key: KeyEvent, b: App, r: Command) -> bool {
    let code = key.code;
    let count = a.visible_count();
    &&& b.should_quit == a.should_quit
    &&& b.sessions == a.sessions
    &&& (code == KeyCode::Esc ==> b.mode is Normal && !b.search_active
        && b.filtered_results@.len() == 0 && b.input_buffer@.len() == 0 && r is Nothing)
    &&& (code == KeyCode::Enter ==> b.mode is Normal && !b.search_active
        && b.filtered_results@.len() == 0 && b.input_buffer@.len() == 0 && match (if a.search_active {
        a.selected_name()
    } else {
        None
    }) {
        Some(n) => r matches Command::Open(x) && x@ == n,
        None => r is Nothing,
    })
    &&& (code == KeyCode::Backspace ==> b.input_buffer@ == (if a.input_buffer@.len() > 0 {
        a.input_buffer@.drop_last()
    } else {
        a.input_buffer@
    }))
    &&& (code matches KeyCode::Char(c) ==> b.input_buffer@ == a.input_buffer@.push(c))
    &&& (code is Char || code == KeyCode::Backspace ==> b.search_active && b.selected == 0
        && is_filter_result(names_of(b.sessions@), b.input_buffer@, b.filtered_results@))
    &&& (code == KeyCode::Down ==> b.selected == if count == 0 {
        a.selected as int
    } else {
        min_of(a.selected + 1, count - 1)
    })
    &&& (code == KeyCode::Up ==> b.selected == if a.selected > 0 {
        a.selected - 1
    } else {
        0
    })
    &&& (!(code == KeyCode::Esc || code == KeyCode::Enter) ==> b.mode is Search && r is Nothing)
    &&& b.config == a.config
    &&& b.tag_filter == a.tag_filter
    &&& b.show_help == a.show_help
    &&& b.focus == a.focus
    &&& b.session_windows == a.session_windows
    &&& b.error_message == a.error_message
    &&& b.error_time == a.error_time
    &&& (!(code == KeyCode::Esc || code == KeyCode::Enter || code is Char || code
        == KeyCode::Backspace) ==> b.filtered_results == a.filtered_results && b.search_active
        == a.search_active && b.input_buffer == a.input_buffer)
    &&& (!(code == KeyCode::Esc || code == KeyCode::Enter || code is Char || code
        == KeyCode::Backspace || code == KeyCode::Up || code == KeyCode::Down) ==> b.selected
        == a.selected)
    &&& (!(code == KeyCode::Esc || code == KeyCode::Enter) ==> b.status_message == a.status_message)
    &&& (code == KeyCode::Esc ==> b.status_message@ == "Search cancelled"@)
    &&& (code == KeyCode::Enter && !(if a.search_active {
        a.selected_name()
    } else {
        None
    } is Some) ==> b.status_message@ == "No match to attach"@)
}

/// What a key does while text is entered for `purpose`, taking `a` to `b`
/// and asking for `r`.
pub open spec fn input_key_effect(a: App, purpose: InputPurpose, key: KeyEvent, b: App, r: Command) -> bool {
    let code = key.code;
    &&& b.should_quit == a.should_quit
    &&& b.sessions == a.sessions
    &&& (code matches KeyCode::Char(c) ==> b.input_buffer@ == a.input_buffer@.push(c))
    &&& (code == KeyCode::Backspace ==> b.input_buffer@ == (if a.input_buffer@.len() > 0 {
        a.input_buffer@.drop_last()
    } else {
        a.input_buffer@
    }))
    &&& (code == KeyCode::Esc ==> b.mode is Normal && b.input_buffer@.len() == 0 && r is Nothing)
    &&& (code == KeyCode::Enter ==> b.mode is Normal && b.input_buffer@.len() == 0 && committed(
        a,
        purpose,
        b,
        r,
    ))
    &&& (!(code == KeyCode::Esc || code == KeyCode::Enter) ==> b.mode == a.mode && r is Nothing)
    &&& b.search_active == a.search_active
    &&& b.filtered_results == a.filtered_results
    &&& b.focus == a.focus
    &&& b.show_help == a.show_help
    &&& b.session_windows == a.session_windows
    &&& b.error_message == a.error_message
    &&& b.error_time == a.error_time
    &&& (!(code == KeyCode::Enter && purpose == InputPurpose::FilterByTag) ==> b.tag_filter
        == a.tag_filter)
    &&& (!(code == KeyCode::Enter && purpose == InputPurpose::AddTag) ==> b.config == a.config)
    &&& (!(code == KeyCode::Enter && (purpose == InputPurpose::FilterByTag || purpose
        == InputPurpose::AddTag)) ==> b.selected == a.selected)
    &&& (!(code == KeyCode::Esc || code == KeyCode::Enter) ==> b.status_message == a.status_message)
    &&& (code == KeyCode::Esc ==> b.status_message@ == "Input cancelled"@)
}

/// What a key does while `action` awaits confirmation, taking `a` to `b` and
/// asking for `r`: yes runs it, no drops it, any other key changes nothing.
pub open spec fn confirm_key_effect(a: App, action: ConfirmAction, key: KeyEvent, b: App, r: Command) -> bool {
    &&& (is_yes(key) ==> b == (App { mode: AppMode::Normal, ..a }) && match action {
        ConfirmAction::KillSession(n) => r matches Command::Kill(x) && x@ == n@,
    })
    &&& (is_no(key) ==> b == (App { mode: AppMode::Normal, status_message: b.status_message, ..a })
        && b.status_message@ == "Cancelled"@ && r is Nothing)
    &&& (!is_yes(key) && !is_no(key) ==> b == a && r is Nothing)
}

/// The state of the interface.
pub struct App {
    pub sessions: Vec<Session>,
    /// Cursor into whichever view is visible: the search results, the
    /// tag-filtered sessions or all sessions.
    pub selected: usize,
    pub mode: AppMode,
    pub should_quit: bool,
    pub input_buffer: String,
    pub status_message: String,
    pub preview_content: String,
    /// When `g` was last pressed, if a double tap is armed.
    pub last_g_press: Option<u64>,
    pub expanded_sessions: Vec<String>,
    pub session_windows: WindowCache,
    pub filtered_results: Vec<MatchResult>,
    pub search_active: bool,
    pub config: Config,
    pub tag_filter: Option<String>,
    pub show_help: bool,
    pub error_message: Option<String>,
    /// When the error was set.
    pub error_time: Option<u64>,
    pub focus: FocusPanel,
    pub selected_window: usize,
    /// When `d` was last pressed, if a double tap is armed.
    pub last_d_press: Option<u64>,
}

impl App {
    /// The positions of the sessions that the tag filter lets through; all of
    /// them when there is no filter.
    pub open spec fn tag_view(&self) -> Seq<usize> {
        match self.tag_filter {
            Some(t) => tagged_positions(self.sessions@, names_with(self.config.tags@, t@)),
            None => all_positions(self.sessions@.len()),
        }
    }

    /// The number of rows of the visible view.
    pub open spec fn visible_count(&self) -> nat {
        if self.search_active {
            self.filtered_results@.len()
        } else if self.tag_filter is Some {
            self.tag_view().len()
        } else {
            self.sessions@.len()
        }
    }

    /// The cursor is 0 or a row of the visible view.
    pub open spec fn cursor_ok(&self) -> bool {
        self.selected == 0 || self.selected < self.visible_count()
    }

    /// The state's invariant.
    pub open spec fn wf(&self) -> bool {
        self.config.wf() && self.cursor_ok()
    }

    /// The name of the session under the cursor, read through the visible view;
    /// a cursor past the end of the search or tag view reads its last row.
    pub open spec fn selected_name(&self) -> Option<Seq<char>> {
        if self.search_active {
            if self.filtered_results@.len() == 0 {
                None
            } else {
                let idx = min_of(self.selected as int, self.filtered_results@.len() - 1);
                let si = self.filtered_results@[idx].session_index;
                if si < self.sessions@.len() {
                    Some(self.sessions@[si as int].name@)
                } else {
                    None
                }
            }
        } else if self.tag_filter is Some {
            let ix = self.tag_view();
            if ix.len() == 0 {
                None
            } else {
                let i = ix[min_of(self.selected as int, ix.len() - 1)];
                if i < self.sessions@.len() {
                    Some(self.sessions@[i as int].name@)
                } else {
                    None
                }
            }
        } else if self.selected < self.sessions@.len() {
            Some(self.sessions@[self.selected as int].name@)
        } else {
            None
        }
    }

    /// The windows cached for the selected session.
    pub open spec fn selected_windows_spec(&self) -> Option<Seq<Window>> {
        match self.selected_name() {
            Some(n) => cached(self.session_windows.entries@, n),
            None => None,
        }
    }

    /// A fresh state around `config`: no sessions, normal mode.
    pub fn with_config(config: Config) -> (r: App)
        requires
            config.wf(),
        ensures
            r.wf(),
            r.config == config,
            r.sessions@.len() == 0,
            r.selected == 0,
            r.mode is Normal,
            !r.should_quit,
            !r.search_active,
            r.tag_filter is None,
            !r.show_help,
            r.error_message is None,
            r.focus == FocusPanel::Sessions,
            r.last_g_press is None,
            r.last_d_press is None,
    {
        App {
            sessions: Vec::new(),
            selected: 0,
            mode: AppMode::Normal,
            should_quit: false,
            input_buffer: String::new(),
            status_message: String::new(),
            preview_content: String::new(),
            last_g_press: None,
            expanded_sessions: Vec::new(),
            session_windows: WindowCache::new(),
            filtered_results: Vec::new(),
            search_active: false,
            config,
            tag_filter: None,
            show_help: false,
            error_message: None,
            error_time: None,
            focus: FocusPanel::Sessions,
            selected_window: 0,
            last_d_press: None,
        }
    }

    /// A fresh state with an empty configuration.
    pub fn new() -> (r: App)
        ensures
            r.wf(),
            r.config.tags@.len() == 0,
            r.sessions@.len() == 0,
            r.selected == 0,
            r.mode is Normal,
            !r.should_quit,
            !r.search_active,
            r.tag_filter is None,
            !r.show_help,
            r.error_message is None,
            r.focus == FocusPanel::Sessions,
            r.last_g_press is None,
            r.last_d_press is None,
    {
        let config = Config::default();
        App::with_config(config)
    }

    /// The positions of the sessions that the tag filter lets through, in
    /// order; every position when no filter is set.
    pub fn tag_filtered_sessions(&self) -> (r: Vec<usize>)
        ensures
            r@ == self.tag_view(),
    {
        let mut out: Vec<usize> = Vec::new();
        match &self.tag_filter {
            Some(tag) => {
                let tagged = self.config.sessions_with_tag(tag.as_str());
                let ghost names = names_with(self.config.tags@, tag@);
                let mut i: usize = 0;
                while i < self.sessions.len()
                    invariant
                        i <= self.sessions@.len(),
                        strings_view(tagged@) == names,
                        self.tag_filter == Some(*tag),
                        out@ == tagged_positions(self.sessions@.take(i as int), names),
                    decreases self.sessions@.len() - i,
                {
                    let ghost pre = self.sessions@.take(i + 1);
                    assert(pre.drop_last() =~= self.sessions@.take(i as int));
                    if contains_string(&tagged, &self.sessions[i].name) {
                        out.push(i);
                    }
                    i = i + 1;
                }
                assert(self.sessions@.take(self.sessions@.len() as int) =~= self.sessions@);
            },
            None => {
                let mut i: usize = 0;
                while i < self.sessions.len()
                    invariant
                        i <= self.sessions@.len(),
                        self.tag_filter is None,
                        out@ == all_positions(i as nat),
                    decreases self.sessions@.len() - i,
                {
                    out.push(i);
                    i = i + 1;
                    assert(out@ =~= all_positions(i as nat));
                }
            },
        }
        out
    }

    /// The number of rows of the visible view.
    pub fn visible_session_count(&self) -> (r: usize)
        ensures
            r == self.visible_count(),
    {
        if self.search_active {
            self.filtered_results.len()
        } else if self.tag_filter.is_some() {
            self.tag_filtered_sessions().len()
        } else {
            self.sessions.len()
        }
    }

    /// The name of the session under the cursor.
    pub fn selected_session_name(&self) -> (r: Option<String>)
        ensures
            r matches Some(n) ==> self.selected_name() == Some(n@),
            r is None ==> self.selected_name() is None,
    {
        if self.search_active {
            let n = self.filtered_results.len();
            if n == 0 {
                return None;
            }
            let idx = if self.selected < n - 1 {
                self.selected
            } else {
                n - 1
            };
            let si = self.filtered_results[idx].session_index;
            if si < self.sessions.len() {
                Some(self.sessions[si].name.clone())
            } else {
                None
            }
        } else if self.tag_filter.is_some() {
            let ix = self.tag_filtered_sessions();
            let n = ix.len();
            if n == 0 {
                return None;
            }
            let idx = if self.selected < n - 1 {
                self.selected
            } else {
                n - 1
            };
            let i = ix[idx];
            if i < self.sessions.len() {
                Some(self.sessions[i].name.clone())
            } else {
                None
            }
        } else if self.selected < self.sessions.len() {
            Some(self.sessions[self.selected].name.clone())
        } else {
            None
        }
    }

    /// Moves the cursor one row down the visible view, stopping at the last row.
    fn select_next(&mut self)
        requires
            old(self).wf(),
        ensures
            final(self).wf(),
            final(self).visible_count() == old(self).visible_count(),
            old(self).visible_count() == 0 ==> final(self).selected == 0,
            old(self).visible_count() > 0 ==> final(self).selected == min_of(
                old(self).selected + 1,
                old(self).visible_count() - 1,
            ),
            *final(self) == (App { selected: final(self).selected, selected_window: final(self).selected_window, ..*old(self) }),
    {
        let count = self.visible_session_count();
        if count == 0 {
            self.selected = 0;
            return;
        }
        let prev = self.selected;
        self.selected = if self.selected + 1 < count - 1 {
            self.selected + 1
        } else {
            count - 1
        };
        if self.selected != prev {
            self.selected_window = 0;
        }
    }

    /// Moves the cursor one row up, stopping at the first row.
    fn select_previous(&mut self)
        requires
            old(self).wf(),
        ensures
            final(self).wf(),
            final(self).selected == if old(self).selected > 0 {
                old(self).selected - 1
            } else {
                0
            },
            *final(self) == (App { selected: final(self).selected, selected_window: final(self).selected_window, ..*old(self) }),
    {
        if self.selected > 0 {
            self.selected = self.selected - 1;
            self.selected_window = 0;
        }
    }

    /// Moves the cursor to the first row.
    fn select_first(&mut self)
        requires
            old(self).wf(),
        ensures
            final(self).wf(),
            final(self).selected == 0,
            *final(self) == (App { selected: final(self).selected, selected_window: final(self).selected_window, ..*old(self) }),
    {
        if self.selected != 0 {
            self.selected_window = 0;
        }
        self.selected = 0;
    }

    /// Moves the cursor to the last row of the visible view.
    fn select_last(&mut self)
        requires
            old(self).wf(),
        ensures
            final(self).wf(),
            final(self).selected == if old(self).visible_count() == 0 {
                0
            } else {
                old(self).visible_count() - 1
            },
            *final(self) == (App { selected: final(self).selected, selected_window: final(self).selected_window, ..*old(self) }),
    {
        let count = self.visible_session_count();
        if count == 0 {
            self.selected = 0;
            return;
        }
        self.selected = count - 1;
    }

    /// Pulls the cursor back onto the visible view after it shrank.
    fn clamp_selection(&mut self)
        requires
            old(self).config.wf(),
        ensures
            final(self).wf(),
            final(self).selected == if old(self).selected < old(self).visible_count() {
                old(self).selected as int
            } else if old(self).visible_count() == 0 {
                0
            } else {
                old(self).visible_count() - 1
            },
            final(self).selected_window == old(self).selected_window,
            *final(self) == (App { selected: final(self).selected, ..*old(self) }),
    {
        let count = self.visible_session_count();
        if self.selected >= count {
            self.selected = if count == 0 {
                0
            } else {
                count - 1
            };
        }
    }

    /// The windows cached for the selected session.
    fn selected_windows(&self) -> (r: Option<&Vec<Window>>)
        ensures
            r matches Some(w) ==> self.selected_windows_spec() == Some(w@),
            r is None ==> self.selected_windows_spec() is None,
    {
        match self.selected_session_name() {
            Some(name) => self.session_windows.get(name.as_str()),
            None => None,
        }
    }

    /// Moves the window cursor one row down, stopping at the last window.
    fn select_next_window(&mut self)
        ensures
            final(self).selected == old(self).selected,
            final(self).selected_window == match old(self).selected_windows_spec() {
                Some(w) => if w.len() > 0 {
                    min_of(old(self).selected_window + 1, w.len() - 1)
                } else {
                    old(self).selected_window as int
                },
                None => old(self).selected_window as int,
            },
            *final(self) == (App { selected_window: final(self).selected_window, ..*old(self) }),
    {
        let count: usize = match self.selected_windows() {
            Some(wins) => wins.len(),
            None => 0,
        };
        if count > 0 {
            self.selected_window = if self.selected_window < count - 1 {
                self.selected_window + 1
            } else {
                count - 1
            };
        }
    }

    /// Moves the window cursor one row up.
    fn select_previous_window(&mut self)
        ensures
            final(self).selected == old(self).selected,
            final(self).selected_window == if old(self).selected_window > 0 {
                old(self).selected_window - 1
            } else {
                0
            },
            *final(self) == (App { selected_window: final(self).selected_window, ..*old(self) }),
    {
        if self.selected_window > 0 {
            self.selected_window = self.selected_window - 1;
        }
    }

    /// Moves the window cursor to the last window of the selected session.
    fn select_last_window(&mut self)
        ensures
            final(self).selected == old(self).selected,
            final(self).selected_window == match old(self).selected_windows_spec() {
                Some(w) => if w.len() > 0 {
                    w.len() - 1
                } else {
                    old(self).selected_window as int
                },
                None => old(self).selected_window as int,
            },
            *final(self) == (App { selected_window: final(self).selected_window, ..*old(self) }),
    {
        let count: usize = match self.selected_windows() {
            Some(wins) => wins.len(),
            None => 0,
        };
        if count > 0 {
            self.selected_window = count - 1;
        }
    }

    /// Shows `msg` as a transient error raised at `now`.
    pub fn set_error(&mut self, msg: String, now: u64)
        ensures
            *final(self) == (App { error_message: Some(msg), error_time: Some(now), ..*old(self) }),
    {
        self.error_message = Some(msg);
        self.error_time = Some(now);
    }

    /// Clears the transient error once it is at least the error lifetime old at `now`.
    pub fn tick_clear_errors(&mut self, now: u64)
        ensures
            (old(self).error_time matches Some(t) && now as int >= t as int
                + ERROR_TTL_MS as int) ==> final(self).error_message is None
                && final(self).error_time is None,
            !(old(self).error_time matches Some(t) && now as int >= t as int
                + ERROR_TTL_MS as int) ==> final(self).error_message == old(self).error_message
                && final(self).error_time == old(self).error_time,
            *final(self) == (App {
                error_message: final(self).error_message,
                error_time: final(self).error_time,
                ..*old(self)
            }),
    {
        if let Some(t) = self.error_time {
            if now >= t && now - t >= ERROR_TTL_MS {
                self.error_message = None;
                self.error_time = None;
            }
        }
    }

    /// Disarms both double taps.
    fn clear_multi_key_state(&mut self)
        ensures
            *final(self) == (App { last_g_press: None, last_d_press: None, ..*old(self) }),
    {
        self.last_g_press = None;
        self.last_d_press = None;
    }

    /// What the open key acts on: the selected session, or its selected
    /// window as `session:index` while the windows panel has the focus.
    pub open spec fn attach_target_spec(&self) -> Option<Seq<char>> {
        match self.selected_name() {
            Some(n) => match self.focus {
                FocusPanel::Sessions => Some(n),
                FocusPanel::Windows => match cached(self.session_windows.entries@, n) {
                    Some(w) => if self.selected_window < w.len() {
                        Some(n + seq![':'] + decimal(w[self.selected_window as int].index as nat))
                    } else {
                        None
                    },
                    None => None,
                },
            },
            None => None,
        }
    }

    /// What the open key acts on.
    pub fn attach_target(&self) -> (r: Option<String>)
        ensures
            r matches Some(t) ==> self.attach_target_spec() == Some(t@),
            r is None ==> self.attach_target_spec() is None,
    {
        let name = match self.selected_session_name() {
            Some(n) => n,
            None => return None,
        };
        match self.focus {
            FocusPanel::Sessions => Some(name),
            FocusPanel::Windows => {
                let windows = match self.session_windows.get(name.as_str()) {
                    Some(w) => w,
                    None => return None,
                };
                if self.selected_window < windows.len() {
                    let mut t = name;
                    push_char(&mut t, ':');
                    push_decimal(&mut t, windows[self.selected_window].index);
                    Some(t)
                } else {
                    None
                }
            },
        }
    }

    /// Every tag in the table, each once, in table order.
    fn available_tags(&self) -> (r: Vec<String>)
        ensures
            r@.len() == 0 <==> no_tags(self.config.tags@),
    {
        let mut seen: Vec<String> = Vec::new();
        let mut i: usize = 0;
        while i < self.config.tags.entries.len()
            invariant
                i <= self.config.tags.entries@.len(),
                seen@.len() == 0 <==> no_tags(self.config.tags@.take(i as int)),
            decreases self.config.tags.entries@.len() - i,
        {
            let tags = &self.config.tags.entries[i].tags;
            let ghost before = seen@;
            let mut k: usize = 0;
            while k < tags.len()
                invariant
                    k <= tags@.len(),
                    i < self.config.tags.entries@.len(),
                    tags == &self.config.tags.entries@[i as int].tags,
                    before.len() <= seen@.len(),
                    seen@.len() != before.len() ==> k > 0,
                    k > 0 ==> seen@.len() > 0,
                decreases tags@.len() - k,
            {
                if !contains_string(&seen, &tags[k]) {
                    seen.push(tags[k].clone());
                } else {
                    assert(strings_view(seen@).len() > 0);
                }
                k = k + 1;
            }
            proof {
                let t = self.config.tags@;
                assert(t.take(i + 1).drop_last() =~= t.take(i as int));
                assert(t[i as int].1.len() == tags@.len());
                if seen@.len() == 0 {
                    assert forall|j: int| 0 <= j < t.take(i + 1).len() implies (
                    #[trigger] t.take(i + 1)[j]).1.len() == 0 by {
                        if j < i {
                            assert(t.take(i + 1)[j] == t.take(i as int)[j]);
                        }
                    }
                } else if before.len() == 0 {
                    assert(t.take(i + 1)[i as int].1.len() > 0);
                } else {
                    let j = choose|j: int| 0 <= j < t.take(i as int).len() && (
                    #[trigger] t.take(i as int)[j]).1.len() > 0;
                    assert(t.take(i + 1)[j] == t.take(i as int)[j]);
                }
            }
            i = i + 1;
        }
        assert(self.config.tags@.take(self.config.tags@.len() as int) =~= self.config.tags@);
        seen
    }

    /// Reacts to a key in normal mode.
    fn handle_normal_mode(&mut self, key: KeyEvent, now: u64) -> (r: Command)
        requires
            old(self).wf(),
            old(self).mode is Normal,
        ensures
            final(self).wf(),
            normal_key_effect(*old(self), key, now, *final(self), r),
            final(self).sessions == old(self).sessions,
    {
        if key.code == KeyCode::Char('c') && key.ctrl {
            self.should_quit = true;
            self.clear_multi_key_state();
            return Command::Nothing;
        }
        let mut command = Command::Nothing;
        match key.code {
            KeyCode::Char('q') => {
                self.should_quit = true;
                self.clear_multi_key_state();
            },
            KeyCode::Char('j') | KeyCode::Down => {
                match self.focus {
                    FocusPanel::Sessions => self.select_next(),
                    FocusPanel::Windows => self.select_next_window(),
                }
                self.clear_multi_key_state();
            },
            KeyCode::Char('k') | KeyCode::Up => {
                match self.focus {
                    FocusPanel::Sessions => self.select_previous(),
                    FocusPanel::Windows => self.select_previous_window(),
                }
                self.clear_multi_key_state();
            },
            KeyCode::Char('G') => {
                match self.focus {
                    FocusPanel::Sessions => self.select_last(),
                    FocusPanel::Windows => self.select_last_window(),
                }
                self.clear_multi_key_state();
            },
            KeyCode::Char('g') => {
                if is_double_tap(self.last_g_press, now) {
                    match self.focus {
                        FocusPanel::Sessions => self.select_first(),
                        FocusPanel::Windows => self.selected_window = 0,
                    }
                    self.last_g_press = None;
                } else {
                    self.last_g_press = Some(now);
                }
                self.last_d_press = None;
            },
            KeyCode::Char('d') => {
                if is_double_tap(self.last_d_press, now) {
                    match self.selected_session_name() {
                        Some(name) => {
                            self.status_message = joined("Kill `", name.as_str(), "`? (y/n)");
                            self.mode = AppMode::Confirm(ConfirmAction::KillSession(name));
                        },
                        None => {
                            self.status_message = "No session selected".to_owned();
                        },
                    }
                    self.last_d_press = None;
                } else {
                    self.last_d_press = Some(now);
                    self.status_message = "Kill session: press d again".to_owned();
                }
                self.last_g_press = None;
            },
            KeyCode::Char('D') => {
                match self.selected_session_name() {
                    Some(name) => {
                        command = Command::Detach(name);
                    },
                    None => {
                        self.status_message = "No session selected".to_owned();
                    },
                }
                self.clear_multi_key_state();
            },
            KeyCode::Char('n') => {
                self.mode = AppMode::Input(InputPurpose::NewSession);
                self.input_buffer = String::new();
                self.status_message = "Create new session".to_owned();
                self.clear_multi_key_state();
            },
            KeyCode::Char('r') => {
                match self.selected_session_name() {
                    Some(name) => {
                        self.mode = AppMode::Input(InputPurpose::RenameSession);
                        self.input_buffer = name;
                        self.status_message = "Rename selected session".to_owned();
                    },
                    None => {
                        self.status_message = "No session selected to rename".to_owned();
                    },
                }
                self.clear_multi_key_state();
            },
            KeyCode::Enter => {
                match self.attach_target() {
                    Some(target) => {
                        command = Command::Open(target);
                    },
                    None => {
                        self.status_message = "No session selected".to_owned();
                    },
                }
                self.clear_multi_key_state();
            },
            KeyCode::Char('/') => {
                self.focus = FocusPanel::Sessions;
                self.mode = AppMode::Search;
                self.input_buffer = String::new();
                self.search_active = true;
                self.update_search_filter();
                self.status_message = "Search mode".to_owned();
                self.clear_multi_key_state();
            },
            KeyCode::Char('t') => {
                match self.selected_session_name() {
                    Some(name) => {
                        self.mode = AppMode::Input(InputPurpose::AddTag);
                        self.input_buffer = String::new();
                        self.status_message = joined("Add tag to `", name.as_str(), "`");
                    },
                    None => {
                        self.status_message = "No session selected".to_owned();
                    },
                }
                self.clear_multi_key_state();
            },
            KeyCode::Char('T') => {
                if self.tag_filter.is_some() {
                    let current = match &self.tag_filter {
                        Some(t) => t.clone(),
                        None => String::new(),
                    };
                    self.status_message = joined("Tag filter `", current.as_str(), "` cleared");
                    self.tag_filter = None;
                    self.selected = 0;
                } else {
                    let all_tags = self.available_tags();
                    if all_tags.len() == 0 {
                        self.status_message = "No tags defined".to_owned();
                    } else {
                        self.mode = AppMode::Input(InputPurpose::FilterByTag);
                        self.input_buffer = String::new();
                        let list = join_with_comma(&all_tags);
                        self.status_message = joined("Filter by tag (available: ", list.as_str(), ")");
                    }
                }
                self.clear_multi_key_state();
            },
            KeyCode::Tab => {
                self.focus = match self.focus {
                    FocusPanel::Sessions => FocusPanel::Windows,
                    FocusPanel::Windows => FocusPanel::Sessions,
                };
                self.clear_multi_key_state();
            },
            KeyCode::Char('?') => {
                self.show_help = !self.show_help;
                self.clear_multi_key_state();
            },
            _ => {
                self.clear_multi_key_state();
            },
        }
        command
    }

    /// Recomputes the fuzzy results for the current query and puts the cursor on the first row.
    fn update_search_filter(&mut self)
        requires
            old(self).config.wf(),
        ensures
            final(self).wf(),
            is_filter_result(names_of(final(self).sessions@), final(self).input_buffer@, final(self).filtered_results@),
            *final(self) == (App { filtered_results: final(self).filtered_results, selected: 0, ..*old(self) }),
    {
        self.filtered_results = fuzzy_match_sessions(self.sessions.as_slice(), self.input_buffer.as_str());
        self.selected = 0;
    }

    /// Leaves search: back to normal mode with the fuzzy view dropped.
    fn leave_search(&mut self)
        requires
            old(self).config.wf(),
        ensures
            final(self).wf(),
            final(self).filtered_results@.len() == 0,
            final(self).input_buffer@.len() == 0,
            *final(self) == (App {
                search_active: false,
                filtered_results: final(self).filtered_results,
                selected: final(self).selected,
                mode: AppMode::Normal,
                input_buffer: final(self).input_buffer,
                ..*old(self)
            }),
    {
        self.search_active = false;
        self.filtered_results = Vec::new();
        self.clamp_selection();
        self.mode = AppMode::Normal;
        self.input_buffer = String::new();
    }

    /// Reacts to a key in search mode.
    fn handle_search_mode(&mut self, key: KeyEvent) -> (r: Command)
        requires
            old(self).wf(),
            old(self).mode is Search,
        ensures
            final(self).wf(),
            search_key_effect(*old(self), key, *final(self), r),
    {
        match key.code {
            KeyCode::Esc => {
                self.leave_search();
                self.status_message = "Search cancelled".to_owned();
                Command::Nothing
            },
            KeyCode::Enter => {
                let target = if self.search_active {
                    self.selected_session_name()
                } else {
                    None
                };
                self.leave_search();
                match target {
                    Some(name) => Command::Open(name),
                    None => {
                        self.status_message = "No match to attach".to_owned();
                        Command::Nothing
                    },
                }
            },
            KeyCode::Backspace => {
                pop_char(&mut self.input_buffer);
                self.search_active = true;
                self.update_search_filter();
                Command::Nothing
            },
            KeyCode::Down => {
                let count = self.visible_session_count();
                if count > 0 {
                    self.selected = if self.selected < count - 1 {
                        self.selected + 1
                    } else {
                        count - 1
                    };
                }
                Command::Nothing
            },
            KeyCode::Up => {
                if self.selected > 0 {
                    self.selected = self.selected - 1;
                }
                Command::Nothing
            },
            KeyCode::Char(c) => {
                push_char(&mut self.input_buffer, c);
                self.search_active = true;
                self.update_search_filter();
                Command::Nothing
            },
            _ => Command::Nothing,
        }
    }

    /// Reacts to a key while text is being entered for `purpose`.
    fn handle_input_mode(&mut self, key: KeyEvent, purpose: InputPurpose) -> (r: Command)
        requires
            old(self).wf(),
            old(self).mode == AppMode::Input(purpose),
        ensures
            final(self).wf(),
            input_key_effect(*old(self), purpose, key, *final(self), r),
    {
        match key.code {
            KeyCode::Esc => {
                self.mode = AppMode::Normal;
                self.input_buffer = String::new();
                self.status_message = "Input cancelled".to_owned();
                Command::Nothing
            },
            KeyCode::Enter => {
                let chars = chars_of(self.input_buffer.as_str());
                let value_chars = trim_chars(&chars);
                let value = string_of_all(&value_chars);
                self.mode = AppMode::Normal;
                let empty = value_chars.len() == 0;
                let command = match purpose {
                    InputPurpose::NewSession => {
                        if empty {
                            self.status_message = "Session name required".to_owned();
                            Command::Nothing
                        } else {
                            Command::Create(value)
                        }
                    },
                    InputPurpose::RenameSession => {
                        if empty {
                            self.status_message = "Session name required".to_owned();
                            Command::Nothing
                        } else {
                            match self.selected_session_name() {
                                Some(old_name) => Command::Rename { from: old_name, to: value },
                                None => {
                                    self.status_message = "No session selected".to_owned();
                                    Command::Nothing
                                },
                            }
                        }
                    },
                    InputPurpose::AddTag => {
                        if empty {
                            self.status_message = "Tag name required".to_owned();
                            Command::Nothing
                        } else {
                            match self.selected_session_name() {
                                Some(session_name) => {
                                    self.config.add_tag(session_name.as_str(), value.as_str());
                                    let mut msg = joined("Tagged `", session_name.as_str(), "` with `");
                                    msg.append(value.as_str());
                                    msg.append("`");
                                    self.status_message = msg;
                                    self.clamp_selection();
                                    Command::SaveConfig
                                },
                                None => {
                                    self.status_message = "No session selected".to_owned();
                                    Command::Nothing
                                },
                            }
                        }
                    },
                    InputPurpose::FilterByTag => {
                        if empty {
                            self.tag_filter = None;
                            self.selected = 0;
                            self.status_message = "Tag filter cleared".to_owned();
                        } else {
                            self.status_message = joined("Filtering by tag `", value.as_str(), "`");
                            self.tag_filter = Some(value);
                            self.selected = 0;
                        }
                        Command::Nothing
                    },
                };
                self.input_buffer = String::new();
                command
            },
            KeyCode::Backspace => {
                pop_char(&mut self.input_buffer);
                Command::Nothing
            },
            KeyCode::Char(c) => {
                push_char(&mut self.input_buffer, c);
                Command::Nothing
            },
            _ => Command::Nothing,
        }
    }

    /// Reacts to a key while `action` awaits confirmation; keys other than
    /// yes and no leave the mode as it is.
    fn handle_confirm_mode(&mut self, key: KeyEvent, action: ConfirmAction) -> (r: Command)
        requires
            old(self).wf(),
            old(self).mode == AppMode::Confirm(action),
        ensures
            final(self).wf(),
            confirm_key_effect(*old(self), action, key, *final(self), r),
    {
        match key.code {
            KeyCode::Char('y') | KeyCode::Enter => {
                self.mode = AppMode::Normal;
                match action {
                    ConfirmAction::KillSession(name) => Command::Kill(name),
                }
            },
            KeyCode::Char('n') | KeyCode::Esc => {
                self.mode = AppMode::Normal;
                self.status_message = "Cancelled".to_owned();
                Command::Nothing
            },
            _ => Command::Nothing,
        }
    }

    /// Handles one input event at time `now` (milliseconds) and returns the
    /// work it asks of the host process. Only key presses act; while the help
    /// overlay shows, any key but `?` just closes it.
    pub fn handle_event(&mut self, event: Event, now: u64) -> (r: Command)
        requires
            old(self).wf(),
        ensures
            final(self).wf(),
            !acts(event) ==> *final(self) == *old(self) && r is Nothing,
            acts(event) && !reaches_mode(*old(self), event) ==> *final(self) == (App {
                show_help: false,
                ..*old(self)
            }) && r is Nothing,
            acts(event) && old(self).mode is Normal && is_quit_key(event->Key_0)
                ==> final(self).should_quit && r is Nothing,
            reaches_mode(*old(self), event) ==> match old(self).mode {
                AppMode::Normal => normal_key_effect(*old(self), event->Key_0, now, *final(self), r),
                AppMode::Search => search_key_effect(*old(self), event->Key_0, *final(self), r),
                AppMode::Input(p) => input_key_effect(*old(self), p, event->Key_0, *final(self), r),
                AppMode::Confirm(a) => confirm_key_effect(*old(self), a, event->Key_0, *final(self), r),
            },
            final(self).sessions == old(self).sessions,
    {
        match event {
            Event::Key(key) => {
                if !key.press {
                    return Command::Nothing;
                }
                let quits = (key.code == KeyCode::Char('c') && key.ctrl) || key.code
                    == KeyCode::Char('q');
                if self.show_help && key.code != KeyCode::Char('?') && !(matches!(
                    self.mode,
                    AppMode::Normal,
                ) && quits) {
                    self.show_help = false;
                    return Command::Nothing;
                }
                let purpose = match &self.mode {
                    AppMode::Input(p) => Some(*p),
                    _ => None,
                };
                let pending = match &self.mode {
                    AppMode::Confirm(ConfirmAction::KillSession(n)) => Some(n.clone()),
                    _ => None,
                };
                if matches!(self.mode, AppMode::Normal) {
                    self.handle_normal_mode(key, now)
                } else if matches!(self.mode, AppMode::Search) {
                    self.handle_search_mode(key)
                } else if let Some(p) = purpose {
                    self.handle_input_mode(key, p)
                } else if let Some(name) = pending {
                    self.handle_confirm_mode(key, ConfirmAction::KillSession(name))
                } else {
                    Command::Nothing
                }
            },
            _ => Command::Nothing,
        }
    }

    /// Records the outcome of `command` (an error's text on failure) at time
    /// `now`, and says whether the session list should be fetched again.
    pub fn complete(&mut self, command: &Command, outcome: Result<(), String>, now: u64) -> (refresh: bool)
        requires
            old(self).wf(),
        ensures
            final(self).wf(),
            *final(self) == (App {
                status_message: final(self).status_message,
                error_message: final(self).error_message,
                error_time: final(self).error_time,
                should_quit: final(self).should_quit,
                ..*old(self)
            }),
            final(self).sessions == old(self).sessions,
            final(self).selected == old(self).selected,
            final(self).mode == old(self).mode,
            !(command is Open && outcome is Ok) ==> final(self).should_quit == old(self).should_quit,
            outcome is Err ==> !refresh && final(self).error_time == Some(now) || command is Nothing
                || command is SaveConfig,
            match command {
                Command::Open(_) => match outcome {
                    Ok(_) => final(self).should_quit && !refresh,
                    Err(e) => final(self).error_message matches Some(m) && m@ == "Failed to switch: "@
                        + e@,
                },
                Command::Detach(n) => match outcome {
                    Ok(_) => refresh && final(self).status_message@ == "Detached clients from `"@
                        + n@ + "`"@,
                    Err(e) => final(self).error_message matches Some(m) && m@ == "Failed to detach: "@
                        + e@,
                },
                Command::Create(v) => match outcome {
                    Ok(_) => refresh && final(self).status_message@ == "Created session `"@ + v@
                        + "`"@,
                    Err(e) => final(self).error_message matches Some(m) && m@ == "Failed to create: "@
                        + e@,
                },
                Command::Rename { from, to } => match outcome {
                    Ok(_) => refresh && final(self).status_message@ == "Renamed `"@ + from@
                        + "` \u{2192} `"@ + to@ + "`"@,
                    Err(e) => final(self).error_message matches Some(m) && m@ == "Failed to rename: "@
                        + e@,
                },
                Command::Kill(n) => match outcome {
                    Ok(_) => refresh && final(self).status_message@ == "Killed session `"@ + n@
                        + "`"@,
                    Err(e) => final(self).error_message matches Some(m) && m@ == "Failed to kill: "@
                        + e@,
                },
                _ => !refresh,
            },
    {
        match command {
            Command::Open(_) => match outcome {
                Ok(_) => {
                    self.should_quit = true;
                    false
                },
                Err(e) => {
                    self.set_error(prefixed("Failed to switch: ", e.as_str()), now);
                    false
                },
            },
            Command::Detach(name) => match outcome {
                Ok(_) => {
                    self.status_message = joined("Detached clients from `", name.as_str(), "`");
                    true
                },
                Err(e) => {
                    self.set_error(prefixed("Failed to detach: ", e.as_str()), now);
                    false
                },
            },
            Command::Create(value) => match outcome {
                Ok(_) => {
                    self.status_message = joined("Created session `", value.as_str(), "`");
                    true
                },
                Err(e) => {
                    self.set_error(prefixed("Failed to create: ", e.as_str()), now);
                    self.status_message = String::new();
                    false
                },
            },
            Command::Rename { from, to } => match outcome {
                Ok(_) => {
                    let mut msg = joined("Renamed `", from.as_str(), "` \u{2192} `");
                    msg.append(to.as_str());
                    msg.append("`");
                    self.status_message = msg;
                    true
                },
                Err(e) => {
                    self.set_error(prefixed("Failed to rename: ", e.as_str()), now);
                    self.status_message = String::new();
                    false
                },
            },
            Command::Kill(name) => match outcome {
                Ok(_) => {
                    self.status_message = joined("Killed session `", name.as_str(), "`");
                    true
                },
                Err(e) => {
                    self.set_error(prefixed("Failed to kill: ", e.as_str()), now);
                    self.status_message = String::new();
                    false
                },
            },
            _ => false,
        }
    }

    /// Takes a fresh session listing. On success the list is replaced, the
    /// fuzzy results are recomputed while a search is active, and the cursor
    /// is pulled back onto the visible view; on failure the list is kept and
    /// the error handed back.
    pub fn refresh_sessions_with(&mut self, listing: Result<Vec<Session>, TmuxError>) -> (r: Result<(), TmuxError>)
        requires
            old(self).wf(),
        ensures
            final(self).wf(),
            final(self).mode == old(self).mode,
            final(self).should_quit == old(self).should_quit,
            final(self).tag_filter == old(self).tag_filter,
            final(self).search_active == old(self).search_active,
            final(self).config == old(self).config,
            match listing {
                Ok(v) => r is Ok && final(self).sessions@ == v@ && (final(self).search_active
                    ==> is_filter_result(
                    names_of(final(self).sessions@),
                    final(self).input_buffer@,
                    final(self).filtered_results@,
                )) && (final(self).selected == if old(self).selected < final(self).visible_count() {
                    old(self).selected as int
                } else if final(self).visible_count() == 0 {
                    0
                } else {
                    final(self).visible_count() - 1
                }),
                Err(e) => r == Err::<(), TmuxError>(e) && final(self).sessions == old(self).sessions,
            },
    {
        match listing {
            Ok(sessions) => {
                self.sessions = sessions;
                if self.search_active {
                    self.filtered_results = fuzzy_match_sessions(
                        self.sessions.as_slice(),
                        self.input_buffer.as_str(),
                    );
                }
                self.clamp_selection();
                Ok(())
            },
            Err(e) => Err(e),
        }
    }

    /// The target whose pane the preview shows: the selected session, at its
    /// selected window while the windows panel has the focus, else window 0.
    pub open spec fn preview_target_spec(&self) -> Option<Seq<char>> {
        match self.selected_name() {
            Some(n) => {
                let idx: nat = match cached(self.session_windows.entries@, n) {
                    Some(w) => if self.focus == FocusPanel::Windows && self.selected_window
                        < w.len() {
                        w[self.selected_window as int].index as nat
                    } else {
                        0
                    },
                    None => 0,
                };
                Some(n + seq![':'] + decimal(idx))
            },
            None => None,
        }
    }

    /// The target whose pane the preview shows.
    pub fn preview_target(&self) -> (r: Option<String>)
        ensures
            r matches Some(t) ==> self.preview_target_spec() == Some(t@),
            r is None ==> self.preview_target_spec() is None,
    {
        let name = match self.selected_session_name() {
            Some(n) => n,
            None => return None,
        };
        let idx: usize = match self.session_windows.get(name.as_str()) {
            Some(w) => if self.focus == FocusPanel::Windows && self.selected_window < w.len() {
                w[self.selected_window].index
            } else {
                0
            },
            None => 0,
        };
        let mut t = name;
        push_char(&mut t, ':');
        push_decimal(&mut t, idx);
        Some(t)
    }

    /// Shows `content` in the preview; nothing when the capture failed.
    pub fn set_preview(&mut self, content: Option<String>)
        ensures
            final(self).preview_content@ == match content {
                Some(c) => c@,
                None => Seq::empty(),
            },
            *final(self) == (App { preview_content: final(self).preview_content, ..*old(self) }),
    {
        self.preview_content = match content {
            Some(c) => c,
            None => String::new(),
        };
    }

    /// The selected session when its windows are not cached yet.
    pub fn windows_to_fetch(&self) -> (r: Option<String>)
        ensures
            r matches Some(n) ==> self.selected_name() == Some(n@) && cached(
                self.session_windows.entries@,
                n@,
            ) is None,
            r is None ==> self.selected_name() is None || cached(
                self.session_windows.entries@,
                self.selected_name()->Some_0,
            ) is Some,
    {
        match self.selected_session_name() {
            Some(n) => {
                if self.session_windows.get(n.as_str()).is_some() {
                    None
                } else {
                    Some(n)
                }
            },
            None => None,
        }
    }

    /// Whether the preview should be captured again after `event` was handled:
    /// when the cursor moved from `previous_selected`, or the terminal was resized.
    pub fn should_refresh_preview(&self, previous_selected: usize, event: Event) -> (r: bool)
        ensures
            r == (self.selected != previous_selected || event is Resize),
    {
        self.selected != previous_selected || matches!(event, Event::Resize(_, _))
    }

    /// Caches the windows listed for `name`.
    pub fn cache_windows(&mut self, name: String, windows: Vec<Window>)
        requires
            old(self).wf(),
        ensures
            final(self).wf(),
            cached(final(self).session_windows.entries@, name@) == Some(windows@),
            forall|k: Seq<char>|
                k != name@ ==> cached(final(self).session_windows.entries@, k) == cached(
                    old(self).session_windows.entries@,
                    k,
                ),
            *final(self) == (App { session_windows: final(self).session_windows, ..*old(self) }),
    {
        self.session_windows.insert(name, windows);
    }
}

/// A `g` after any other key starts the gesture afresh: `g`, another key,
/// `g` never jumps to the first row, whatever the times.
pub proof fn law_interrupted_gesture_does_not_jump(
    last_g: Option<u64>,
    last_d: Option<u64>,
    first: KeyEvent,
    other: KeyEvent,
    second: KeyEvent,
    t0: u64,
    t1: u64,
    t2: u64,
)
    requires
        first.code == KeyCode::Char('g'),
        other.code != KeyCode::Char('g'),
        second.code == KeyCode::Char('g'),
    ensures
        ({
            let s1 = gesture_step(last_g, last_d, first, t0);
            let s2 = gesture_step(s1.last_g, s1.last_d, other, t1);
            let s3 = gesture_step(s2.last_g, s2.last_d, second, t2);
            s2.last_g is None && !s3.jump_first && s3.last_g == Some(t2)
        }),
{
}

/// A press that comes more than the double-tap window after the armed one
/// is a fresh first press: it arms again and completes nothing.
pub proof fn law_stale_gesture_restarts(last_g: Option<u64>, last_d: Option<u64>, key: KeyEvent, now: u64)
    requires
        key.code == KeyCode::Char('g') || key.code == KeyCode::Char('d'),
        key.code == KeyCode::Char('g') ==> (last_g matches Some(t) && now as int > t as int
            + DOUBLE_TAP_MS as int),
        key.code == KeyCode::Char('d') ==> (last_d matches Some(t) && now as int > t as int
            + DOUBLE_TAP_MS as int),
    ensures
        !gesture_step(last_g, last_d, key, now).jump_first,
        !gesture_step(last_g, last_d, key, now).confirm_kill,
        key.code == KeyCode::Char('g') ==> gesture_step(last_g, last_d, key, now).last_g == Some(now),
        key.code == KeyCode::Char('d') ==> gesture_step(last_g, last_d, key, now).last_d == Some(now),
{
}

/// Two presses of `d` within the double-tap window complete the kill gesture.
pub proof fn law_double_d_confirms(last_g: Option<u64>, first: KeyEvent, second: KeyEvent, last_d: Option<u64>, t0: u64, t1: u64)
    requires
        first.code == KeyCode::Char('d'),
        second.code == KeyCode::Char('d'),
        !double_tap(last_d, t0),
        t0 <= t1 <= t0 as int + DOUBLE_TAP_MS as int,
    ensures
        ({
            let s1 = gesture_step(last_g, last_d, first, t0);
            gesture_step(s1.last_g, s1.last_d, second, t1).confirm_kill
        }),
{
}

} // verus!
