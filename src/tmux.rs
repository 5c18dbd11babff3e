//! The host-process driver's own logic: the record format of its listings,
//! the arguments of each command, and how its failures are read.
use vstd::prelude::*;

use crate::text::{trim_chars, trimmed, 
    chars_of, i64_of, occurs_in, occurs_in_exec, parse_i64, parse_usize, split_on,
    split_pattern, string_of_all, usize_of, views_of,
};
use crate::config::strings_view;
use crate::types::{Pane, PaneView, Session, SessionView, Window, WindowView};

verus! {

/// The control character that separates the fields of a record.
pub const DELIMITER: char = '\x01';

/// A failure of the host process.
#[derive(Debug, Clone, PartialEq, Eq)]
pub enum TmuxError {
    /// The process could not be started.
    Spawn { message: String },
    /// The process ran past the timeout.
    TimedOut,
    /// The process exited with a non-zero code; `message` is its trimmed
    /// standard error.
    Failed { code: i32, message: String },
}

/// The fields of one record, split on the control character.
pub open spec fn fields_of(line: Seq<char>) -> Seq<Seq<char>> {
    split_on(line, seq![DELIMITER])
}

/// `line` without one trailing carriage return.
pub open spec fn strip_cr(line: Seq<char>) -> Seq<char> {
    if line.len() > 0 && line.last() == '\r' {
        line.drop_last()
    } else {
        line
    }
}

/// The records of a listing: its lines, each without a trailing carriage return.
pub open spec fn records_of(s: Seq<char>) -> Seq<Seq<char>> {
    split_on(s, seq!['\n']).map_values(|l: Seq<char>| strip_cr(l))
}

/// The values that are present, in order.
pub open spec fn keep_some<T>(xs: Seq<Option<T>>) -> Seq<T>
    decreases xs.len(),
{
    if xs.len() == 0 {
        Seq::empty()
    } else {
        match xs.last() {
            Some(x) => keep_some(xs.drop_last()).push(x),
            None => keep_some(xs.drop_last()),
        }
    }
}

/// A number field that may be empty, which reads as `default`.
pub open spec fn i64_or(s: Seq<char>, default: i64) -> Option<i64> {
    if s.len() == 0 {
        Some(default)
    } else {
        i64_of(s)
    }
}

/// A text field where empty means absent.
pub open spec fn optional_of(s: Seq<char>) -> Option<Seq<char>> {
    if s.len() == 0 {
        None
    } else {
        Some(s)
    }
}

/// The session that eight fields describe, if each parses.
pub open spec fn session_of(f: Seq<Seq<char>>) -> Option<SessionView> {
    if f.len() == 8 && usize_of(f[2]) is Some && usize_of(f[3]) is Some && i64_or(f[4], 0) is Some
        && i64_or(f[5], 0) is Some {
        Some(
            SessionView {
                id: f[0],
                name: f[1],
                windows: usize_of(f[2])->Some_0,
                attached: usize_of(f[3])->Some_0,
                created: i64_or(f[4], 0)->Some_0,
                last_attached: i64_or(f[5], 0)->Some_0,
                group: optional_of(f[6]),
                path: f[7],
            },
        )
    } else {
        None
    }
}

/// The window that six fields describe, if its index parses.
pub open spec fn window_of(f: Seq<Seq<char>>) -> Option<WindowView> {
    if f.len() == 6 && usize_of(f[2]) is Some {
        Some(
            WindowView {
                id: f[0],
                session_id: f[1],
                index: usize_of(f[2])->Some_0,
                name: f[3],
                active: f[4] == seq!['1'],
                active_command: f[5],
            },
        )
    } else {
        None
    }
}

/// The pane that seven fields describe, if its index parses.
pub open spec fn pane_of(f: Seq<Seq<char>>) -> Option<PaneView> {
    if f.len() == 7 && usize_of(f[3]) is Some {
        Some(
            PaneView {
                id: f[0],
                window_id: f[1],
                session_id: f[2],
                index: usize_of(f[3])->Some_0,
                active: f[4] == seq!['1'],
                current_command: f[5],
                current_path: f[6],
            },
        )
    } else {
        None
    }
}

/// The sessions of a listing, one per well-formed record, in order.
pub open spec fn sessions_in(s: Seq<char>) -> Seq<SessionView> {
    keep_some(records_of(s).map_values(|l: Seq<char>| session_of(fields_of(l))))
}

/// The windows of a listing, one per well-formed record, in order.
pub open spec fn windows_in(s: Seq<char>) -> Seq<WindowView> {
    keep_some(records_of(s).map_values(|l: Seq<char>| window_of(fields_of(l))))
}

/// The panes of a listing, one per well-formed record, in order.
pub open spec fn panes_in(s: Seq<char>) -> Seq<PaneView> {
    keep_some(records_of(s).map_values(|l: Seq<char>| pane_of(fields_of(l))))
}

/// The views of a list of sessions.
pub open spec fn session_views(v: Seq<Session>) -> Seq<SessionView> {
    v.map_values(|x: Session| x@)
}

/// The views of a list of windows.
pub open spec fn window_views(v: Seq<Window>) -> Seq<WindowView> {
    v.map_values(|x: Window| x@)
}

/// The views of a list of panes.
pub open spec fn pane_views(v: Seq<Pane>) -> Seq<PaneView> {
    v.map_values(|x: Pane| x@)
}

proof fn lemma_keep_some_step<T>(xs: Seq<Option<T>>, k: int)
    requires
        0 <= k < xs.len(),
    ensures
        keep_some(xs.take(k + 1)) == match xs[k] {
            Some(x) => keep_some(xs.take(k)).push(x),
            None => keep_some(xs.take(k)),
        },
{
    assert(xs.take(k + 1).drop_last() =~= xs.take(k));
}

/// The fields of one record.
fn split_fields(line: &Vec<char>) -> (r: Vec<Vec<char>>)
    ensures
        views_of(r@) == fields_of(line@),
{
    let single: Vec<char> = vec![DELIMITER];
    assert(single@ == seq![DELIMITER]);
    split_pattern(line, &single)
}

/// The records of a listing.
fn records(output: &str) -> (r: Vec<Vec<char>>)
    ensures
        views_of(r@) == records_of(output@),
{
    let chars = chars_of(output);
    let newline: Vec<char> = vec!['\n'];
    assert(newline@ == seq!['\n']);
    let mut lines = split_pattern(&chars, &newline);
    let ghost pieces = views_of(lines@);
    let mut k: usize = 0;
    while k < lines.len()
        invariant
            k <= lines@.len() == pieces.len(),
            pieces == split_on(output@, seq!['\n']),
            forall|j: int| 0 <= j < k ==> #[trigger] lines@[j]@ == strip_cr(pieces[j]),
            forall|j: int| k <= j < lines@.len() ==> #[trigger] lines@[j]@ == pieces[j],
        decreases lines@.len() - k,
    {
        let n = lines[k].len();
        if n > 0 && lines[k][n - 1] == '\r' {
            let mut line = lines[k].clone();
            line.pop();
            lines.set(k, line);
        }
        k = k + 1;
    }
    assert(views_of(lines@) =~= records_of(output@));
    lines
}

/// A number field that may be empty, which reads as `default`.
fn parse_i64_with_empty_default(value: &Vec<char>, default: i64) -> (r: Option<i64>)
    ensures
        r == i64_or(value@, default),
{
    if value.len() == 0 {
        Some(default)
    } else {
        parse_i64(value)
    }
}

/// A text field where empty means absent.
fn optional_field(value: &Vec<char>) -> (r: Option<String>)
    ensures
        r matches Some(s) ==> optional_of(value@) == Some(s@),
        r is None ==> optional_of(value@) is None,
{
    if value.len() == 0 {
        None
    } else {
        Some(string_of_all(value))
    }
}

/// Whether a field reads as the flag `1`.
fn flag_field(value: &Vec<char>) -> (r: bool)
    ensures
        r == (value@ == seq!['1']),
{
    let r = value.len() == 1 && value[0] == '1';
    assert(r ==> value@ =~= seq!['1']);
    r
}

fn session_from_fields(f: &Vec<Vec<char>>) -> (r: Option<Session>)
    ensures
        r matches Some(s) ==> session_of(views_of(f@)) == Some(s@),
        r is None ==> session_of(views_of(f@)) is None,
{
    let ghost fv = views_of(f@);
    if f.len() != 8 {
        return None;
    }
    assert(fv[2] == f@[2]@ && fv[3] == f@[3]@ && fv[4] == f@[4]@ && fv[5] == f@[5]@);
    let windows = parse_usize(&f[2]);
    let attached = parse_usize(&f[3]);
    let created = parse_i64_with_empty_default(&f[4], 0);
    let last_attached = parse_i64_with_empty_default(&f[5], 0);
    match (windows, attached, created, last_attached) {
        (Some(windows), Some(attached), Some(created), Some(last_attached)) => {
            assert(fv[0] == f@[0]@ && fv[1] == f@[1]@ && fv[6] == f@[6]@ && fv[7] == f@[7]@);
            Some(
                Session {
                    id: string_of_all(&f[0]),
                    name: string_of_all(&f[1]),
                    windows,
                    attached,
                    created,
                    last_attached,
                    group: optional_field(&f[6]),
                    path: string_of_all(&f[7]),
                },
            )
        },
        _ => None,
    }
}

fn window_from_fields(f: &Vec<Vec<char>>) -> (r: Option<Window>)
    ensures
        r matches Some(w) ==> window_of(views_of(f@)) == Some(w@),
        r is None ==> window_of(views_of(f@)) is None,
{
    let ghost fv = views_of(f@);
    if f.len() != 6 {
        return None;
    }
    assert(fv[2] == f@[2]@);
    match parse_usize(&f[2]) {
        Some(index) => {
            assert(fv[0] == f@[0]@ && fv[1] == f@[1]@ && fv[3] == f@[3]@ && fv[4] == f@[4]@
                && fv[5] == f@[5]@);
            Some(
                Window {
                    id: string_of_all(&f[0]),
                    session_id: string_of_all(&f[1]),
                    index,
                    name: string_of_all(&f[3]),
                    active: flag_field(&f[4]),
                    active_command: string_of_all(&f[5]),
                },
            )
        },
        None => None,
    }
}

fn pane_from_fields(f: &Vec<Vec<char>>) -> (r: Option<Pane>)
    ensures
        r matches Some(p) ==> pane_of(views_of(f@)) == Some(p@),
        r is None ==> pane_of(views_of(f@)) is None,
{
    let ghost fv = views_of(f@);
    if f.len() != 7 {
        return None;
    }
    assert(fv[3] == f@[3]@);
    match parse_usize(&f[3]) {
        Some(index) => {
            assert(fv[0] == f@[0]@ && fv[1] == f@[1]@ && fv[2] == f@[2]@ && fv[4] == f@[4]@
                && fv[5] == f@[5]@ && fv[6] == f@[6]@);
            Some(
                Pane {
                    id: string_of_all(&f[0]),
                    window_id: string_of_all(&f[1]),
                    session_id: string_of_all(&f[2]),
                    index,
                    active: flag_field(&f[4]),
                    current_command: string_of_all(&f[5]),
                    current_path: string_of_all(&f[6]),
                },
            )
        },
        None => None,
    }
}

/// The sessions of a session listing; a record with the wrong number of
/// fields, or a field that does not parse, is skipped.
pub fn parse_sessions(output: &str) -> (r: Result<Vec<Session>, TmuxError>)
    ensures
        r matches Ok(v) && session_views(v@) == sessions_in(output@),
{
    let lines = records(output);
    let ghost recs = records_of(output@);
    let ghost opts = recs.map_values(|l: Seq<char>| session_of(fields_of(l)));
    let mut sessions: Vec<Session> = Vec::new();
    let mut k: usize = 0;
    while k < lines.len()
        invariant
            k <= lines@.len() == recs.len() == opts.len(),
            views_of(lines@) == recs,
            opts == recs.map_values(|l: Seq<char>| session_of(fields_of(l))),
            session_views(sessions@) == keep_some(opts.take(k as int)),
        decreases lines@.len() - k,
    {
        let fields = split_fields(&lines[k]);
        assert(recs[k as int] == lines@[k as int]@);
        let parsed = session_from_fields(&fields);
        proof {
            lemma_keep_some_step(opts, k as int);
        }
        match parsed {
            Some(s) => {
                let ghost before = sessions@;
                sessions.push(s);
                assert(session_views(sessions@) =~= session_views(before).push(s@));
            },
            None => {},
        }
        k = k + 1;
    }
    assert(opts.take(lines@.len() as int) =~= opts);
    Ok(sessions)
}

/// The windows of a window listing; malformed records are skipped.
pub fn parse_windows(output: &str) -> (r: Result<Vec<Window>, TmuxError>)
    ensures
        r matches Ok(v) && window_views(v@) == windows_in(output@),
{
    let lines = records(output);
    let ghost recs = records_of(output@);
    let ghost opts = recs.map_values(|l: Seq<char>| window_of(fields_of(l)));
    let mut windows: Vec<Window> = Vec::new();
    let mut k: usize = 0;
    while k < lines.len()
        invariant
            k <= lines@.len() == recs.len() == opts.len(),
            views_of(lines@) == recs,
            opts == recs.map_values(|l: Seq<char>| window_of(fields_of(l))),
            window_views(windows@) == keep_some(opts.take(k as int)),
        decreases lines@.len() - k,
    {
        let fields = split_fields(&lines[k]);
        assert(recs[k as int] == lines@[k as int]@);
        let parsed = window_from_fields(&fields);
        proof {
            lemma_keep_some_step(opts, k as int);
        }
        match parsed {
            Some(w) => {
                let ghost before = windows@;
                windows.push(w);
                assert(window_views(windows@) =~= window_views(before).push(w@));
            },
            None => {},
        }
        k = k + 1;
    }
    assert(opts.take(lines@.len() as int) =~= opts);
    Ok(windows)
}

/// The panes of a pane listing; malformed records are skipped.
pub fn parse_panes(output: &str) -> (r: Result<Vec<Pane>, TmuxError>)
    ensures
        r matches Ok(v) && pane_views(v@) == panes_in(output@),
{
    let lines = records(output);
    let ghost recs = records_of(output@);
    let ghost opts = recs.map_values(|l: Seq<char>| pane_of(fields_of(l)));
    let mut panes: Vec<Pane> = Vec::new();
    let mut k: usize = 0;
    while k < lines.len()
        invariant
            k <= lines@.len() == recs.len() == opts.len(),
            views_of(lines@) == recs,
            opts == recs.map_values(|l: Seq<char>| pane_of(fields_of(l))),
            pane_views(panes@) == keep_some(opts.take(k as int)),
        decreases lines@.len() - k,
    {
        let fields = split_fields(&lines[k]);
        assert(recs[k as int] == lines@[k as int]@);
        let parsed = pane_from_fields(&fields);
        proof {
            lemma_keep_some_step(opts, k as int);
        }
        match parsed {
            Some(p) => {
                let ghost before = panes@;
                panes.push(p);
                assert(pane_views(panes@) =~= pane_views(before).push(p@));
            },
            None => {},
        }
        k = k + 1;
    }
    assert(opts.take(lines@.len() as int) =~= opts);
    Ok(panes)
}

/// The record format of a session listing: eight fields.
pub const SESSION_FORMAT: &'static str = "#{session_id}\x01#{session_name}\x01#{session_windows}\x01#{session_attached}\x01#{session_created}\x01#{session_last_attached}\x01#{session_group}\x01#{session_path}";

/// The record format of a window listing: six fields.
pub const WINDOW_FORMAT: &'static str = "#{window_id}\x01#{session_id}\x01#{window_index}\x01#{window_name}\x01#{window_active}\x01#{pane_current_command}";

/// The record format of a pane listing: seven fields.
pub const PANE_FORMAT: &'static str = "#{pane_id}\x01#{window_id}\x01#{session_id}\x01#{pane_index}\x01#{pane_active}\x01#{pane_current_command}\x01#{pane_current_path}";

/// Owned copies of the given pieces.
fn owned(pieces: &[&str]) -> (r: Vec<String>)
    ensures
        r@.len() == pieces@.len(),
        forall|k: int| 0 <= k < pieces@.len() ==> #[trigger] r@[k]@ == pieces@[k]@,
{
    let mut out: Vec<String> = Vec::new();
    let mut i: usize = 0;
    while i < pieces.len()
        invariant
            i <= pieces@.len(),
            out@.len() == i,
            forall|k: int| 0 <= k < i ==> #[trigger] out@[k]@ == pieces@[k]@,
        decreases pieces@.len() - i,
    {
        out.push(pieces[i].to_owned());
        i = i + 1;
    }
    out
}

/// Arguments that list every session.
pub fn list_sessions_args() -> (r: Vec<String>)
    ensures
        strings_view(r@) == seq!["list-sessions"@, "-F"@, SESSION_FORMAT@],
{
    let r = owned(&["list-sessions", "-F", SESSION_FORMAT]);
    assert(strings_view(r@) =~= seq!["list-sessions"@, "-F"@, SESSION_FORMAT@]);
    r
}

/// Arguments that list the windows of a session.
pub fn list_windows_args(session_name: &str) -> (r: Vec<String>)
    ensures
        strings_view(r@) == seq!["list-windows"@, "-F"@, WINDOW_FORMAT@, "-t"@, session_name@],
{
    let r = owned(&["list-windows", "-F", WINDOW_FORMAT, "-t", session_name]);
    assert(strings_view(r@) =~= seq!["list-windows"@, "-F"@, WINDOW_FORMAT@, "-t"@, session_name@]);
    r
}

/// Arguments that list the panes of a window.
pub fn list_panes_args(target_window: &str) -> (r: Vec<String>)
    ensures
        strings_view(r@) == seq!["list-panes"@, "-F"@, PANE_FORMAT@, "-t"@, target_window@],
{
    let r = owned(&["list-panes", "-F", PANE_FORMAT, "-t", target_window]);
    assert(strings_view(r@) =~= seq!["list-panes"@, "-F"@, PANE_FORMAT@, "-t"@, target_window@]);
    r
}

/// Arguments that create a detached session, started in `path` when given.
pub fn create_session_args(name: &str, path: Option<&str>) -> (r: Vec<String>)
    ensures
        strings_view(r@) == match path {
            Some(p) => seq!["new-session"@, "-d"@, "-s"@, name@, "-c"@, p@],
            None => seq!["new-session"@, "-d"@, "-s"@, name@],
        },
{
    match path {
        Some(p) => {
            let r = owned(&["new-session", "-d", "-s", name, "-c", p]);
            assert(strings_view(r@) =~= seq!["new-session"@, "-d"@, "-s"@, name@, "-c"@, p@]);
            r
        },
        None => {
            let r = owned(&["new-session", "-d", "-s", name]);
            assert(strings_view(r@) =~= seq!["new-session"@, "-d"@, "-s"@, name@]);
            r
        },
    }
}

/// Arguments that kill a session.
pub fn kill_session_args(name: &str) -> (r: Vec<String>)
    ensures
        strings_view(r@) == seq!["kill-session"@, "-t"@, name@],
{
    let r = owned(&["kill-session", "-t", name]);
    assert(strings_view(r@) =~= seq!["kill-session"@, "-t"@, name@]);
    r
}

/// Arguments that rename a session; the new name follows `--`.
pub fn rename_session_args(current_name: &str, new_name: &str) -> (r: Vec<String>)
    ensures
        strings_view(r@) == seq!["rename-session"@, "-t"@, current_name@, "--"@, new_name@],
{
    let r = owned(&["rename-session", "-t", current_name, "--", new_name]);
    assert(strings_view(r@) =~= seq!["rename-session"@, "-t"@, current_name@, "--"@, new_name@]);
    r
}

/// Arguments that move the current client to a target.
pub fn switch_client_args(target: &str) -> (r: Vec<String>)
    ensures
        strings_view(r@) == seq!["switch-client"@, "-t"@, target@],
{
    let r = owned(&["switch-client", "-t", target]);
    assert(strings_view(r@) =~= seq!["switch-client"@, "-t"@, target@]);
    r
}

/// Arguments that attach to a target.
pub fn attach_session_args(target: &str) -> (r: Vec<String>)
    ensures
        strings_view(r@) == seq!["attach-session"@, "-t"@, target@],
{
    let r = owned(&["attach-session", "-t", target]);
    assert(strings_view(r@) =~= seq!["attach-session"@, "-t"@, target@]);
    r
}

/// Arguments that detach every client of a session.
pub fn detach_clients_args(name: &str) -> (r: Vec<String>)
    ensures
        strings_view(r@) == seq!["detach-client"@, "-s"@, name@],
{
    let r = owned(&["detach-client", "-s", name]);
    assert(strings_view(r@) =~= seq!["detach-client"@, "-s"@, name@]);
    r
}

/// Arguments that print the visible content of a pane.
pub fn capture_pane_args(target: &str) -> (r: Vec<String>)
    ensures
        strings_view(r@) == seq!["capture-pane"@, "-p"@, "-t"@, target@],
{
    let r = owned(&["capture-pane", "-p", "-t", target]);
    assert(strings_view(r@) =~= seq!["capture-pane"@, "-p"@, "-t"@, target@]);
    r
}

/// Arguments that ask whether a session exists.
pub fn has_session_args(name: &str) -> (r: Vec<String>)
    ensures
        strings_view(r@) == seq!["has-session"@, "-t"@, name@],
{
    let r = owned(&["has-session", "-t", name]);
    assert(strings_view(r@) =~= seq!["has-session"@, "-t"@, name@]);
    r
}

/// The error text that means the session does not exist.
pub open spec fn means_absent(message: Seq<char>) -> bool {
    occurs_in(message, "can't find session"@) || occurs_in(message, "no server running"@)
}

/// Reads the outcome of a membership probe: success means present, a
/// failure whose text says the session or the server is missing means
/// absent, and any other failure is passed on.
pub fn has_session_from(outcome: Result<String, TmuxError>) -> (r: Result<bool, TmuxError>)
    ensures
        match outcome {
            Ok(_) => r == Ok::<bool, TmuxError>(true),
            Err(TmuxError::Failed { code, message }) => if means_absent(message@) {
                r == Ok::<bool, TmuxError>(false)
            } else {
                r == Err::<bool, TmuxError>(TmuxError::Failed { code, message })
            },
            Err(e) => r == Err::<bool, TmuxError>(e),
        },
{
    match outcome {
        Ok(_) => Ok(true),
        Err(TmuxError::Failed { code, message }) => {
            let text = chars_of(message.as_str());
            let missing_session = chars_of("can't find session");
            let missing_server = chars_of("no server running");
            if occurs_in_exec(&text, &missing_session) || occurs_in_exec(&text, &missing_server) {
                Ok(false)
            } else {
                Err(TmuxError::Failed { code, message })
            }
        },
        Err(e) => Err(e),
    }
}

/// What a finished command yields: its standard output when it succeeded,
/// else a failure with its exit code (0 when it has none) and its trimmed
/// standard error, or `no output` when that is blank.
pub fn command_outcome(success: bool, code: Option<i32>, stdout: String, stderr: &str) -> (r: Result<String, TmuxError>)
    ensures
        success ==> r == Ok::<String, TmuxError>(stdout),
        !success ==> (r matches Err(TmuxError::Failed { code: c, message: m }) && c == (match code {
            Some(x) => x,
            None => 0,
        }) && m@ == (if trimmed(stderr@).len() == 0 {
            "no output"@
        } else {
            trimmed(stderr@)
        })),
{
    if success {
        return Ok(stdout);
    }
    let text = trim_chars(&chars_of(stderr));
    let message = if text.len() == 0 {
        "no output".to_owned()
    } else {
        string_of_all(&text)
    };
    let c: i32 = match code {
        Some(x) => x,
        None => 0,
    };
    Err(TmuxError::Failed { code: c, message })
}

} // verus!
