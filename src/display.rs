//! One-line summaries of sessions and windows, cut to a number of terminal columns.
use vstd::prelude::*;

use unicode_width::{UnicodeWidthChar, UnicodeWidthStr};

use crate::app::{decimal, push_decimal};
use crate::text::{chars_of, string_of};
use crate::types::{Session, Window};

verus! {

/// The columns a character takes on a terminal; `None` for a control character.
pub uninterp spec fn char_width_of(c: char) -> Option<usize>;

/// The columns a string takes on a terminal.
pub uninterp spec fn text_width_of(s: Seq<char>) -> usize;

/// Relies on `unicode_width::UnicodeWidthChar::width`: the displayed columns
/// of `c`, or `None` for a control character.
#[verifier::external_body]
fn char_width(c: char) -> (r: Option<usize>)
    ensures
        r == char_width_of(c),
{
    UnicodeWidthChar::width(c)
}

/// Relies on `unicode_width::UnicodeWidthStr::width`: the displayed columns of `s`.
#[verifier::external_body]
fn text_width(s: &str) -> (r: usize)
    ensures
        r == text_width_of(s@),
{
    UnicodeWidthStr::width(s)
}

/// The columns of a character, control characters counting none.
pub open spec fn cols(c: char) -> nat {
    match char_width_of(c) {
        Some(w) => w as nat,
        None => 0,
    }
}

/// The columns of `s`, character by character.
pub open spec fn cols_of(s: Seq<char>) -> nat
    decreases s.len(),
{
    if s.len() == 0 {
        0
    } else {
        cols_of(s.drop_last()) + cols(s.last())
    }
}

/// `k` leading characters of `s` fit in `budget` columns and the next one would not.
pub open spec fn longest_fit(s: Seq<char>, budget: nat, k: int) -> bool {
    &&& 0 <= k <= s.len()
    &&& cols_of(s.take(k)) <= budget
    &&& (k == s.len() || cols_of(s.take(k + 1)) > budget)
}

/// `r` is `text` cut to `max` columns: nothing for zero columns, the text
/// itself when it fits, else the characters that fit in one column less
/// followed by an ellipsis.
pub open spec fn is_truncation(text: Seq<char>, max: nat, r: Seq<char>) -> bool {
    if max == 0 {
        r.len() == 0
    } else if text_width_of(text) <= max {
        r == text
    } else if max == 1 {
        r == seq!['\u{2026}']
    } else {
        exists|k: int| longest_fit(text, (max - 1) as nat, k) && r == text.take(k).push('\u{2026}')
    }
}

/// `text` cut to at most `max_width` columns, with an ellipsis where it was cut.
pub fn truncate_with_ellipsis(text: &str, max_width: usize) -> (r: String)
    ensures
        is_truncation(text@, max_width as nat, r@),
{
    if max_width == 0 {
        return String::new();
    }
    if text_width(text) <= max_width {
        return text.to_owned();
    }
    if max_width == 1 {
        let mut r = String::new();
        crate::text::push_char(&mut r, '\u{2026}');
        assert(r@ =~= seq!['\u{2026}']);
        return r;
    }
    let chars = chars_of(text);
    let budget = max_width - 1;
    let mut used: usize = 0;
    let mut k: usize = 0;
    let mut full = false;
    while k < chars.len() && !full
        invariant
            k <= chars@.len(),
            chars@ == text@,
            budget == max_width - 1,
            used as nat == cols_of(chars@.take(k as int)),
            used <= budget,
            full ==> k < chars@.len() && cols_of(chars@.take(k + 1)) > budget,
        decreases chars@.len() - k + (if full { 0int } else { 1int }),
    {
        let w: usize = match char_width(chars[k]) {
            Some(w) => w,
            None => 0,
        };
        assert(chars@.take(k + 1).drop_last() =~= chars@.take(k as int));
        if w > budget - used {
            full = true;
        } else {
            used = used + w;
            k = k + 1;
        }
    }
    let mut r = string_of(&chars, 0, k);
    crate::text::push_char(&mut r, '\u{2026}');
    assert(chars@.subrange(0, k as int) =~= chars@.take(k as int));
    assert(longest_fit(text@, budget as nat, k as int));
    r
}

/// The summary of a session before cutting: its state mark, name, window
/// count and whether a client is attached.
pub open spec fn session_line(s: Session) -> Seq<char> {
    (if s.attached > 0 {
        "\u{25cf} "@
    } else {
        "\u{25cb} "@
    }) + s.name@ + "  "@ + decimal(s.windows as nat) + " windows  "@ + (if s.attached > 0 {
        "attached"@
    } else {
        "detached"@
    })
}

/// The summary of a session, cut to `max_width` columns.
pub fn format_session_line(session: &Session, max_width: usize) -> (r: String)
    ensures
        is_truncation(session_line(*session), max_width as nat, r@),
{
    let mut line = if session.attached > 0 {
        "\u{25cf} ".to_owned()
    } else {
        "\u{25cb} ".to_owned()
    };
    line.append(session.name.as_str());
    line.append("  ");
    push_decimal(&mut line, session.windows);
    line.append(" windows  ");
    if session.attached > 0 {
        line.append("attached");
    } else {
        line.append("detached");
    }
    truncate_with_ellipsis(line.as_str(), max_width)
}

/// The summary of a window before cutting: index, name, a star when it is
/// the active window, and its command.
pub open spec fn window_line(w: Window) -> Seq<char> {
    decimal(w.index as nat) + ": "@ + w.name@ + (if w.active {
        "*"@
    } else {
        " "@
    }) + " ("@ + w.active_command@ + ")"@
}

/// The summary of a window, cut to `max_width` columns.
pub fn format_window_line(window: &Window, max_width: usize) -> (r: String)
    ensures
        is_truncation(window_line(*window), max_width as nat, r@),
{
    let mut line = String::new();
    push_decimal(&mut line, window.index);
    line.append(": ");
    line.append(window.name.as_str());
    if window.active {
        line.append("*");
    } else {
        line.append(" ");
    }
    line.append(" (");
    line.append(window.active_command.as_str());
    line.append(")");
    truncate_with_ellipsis(line.as_str(), max_width)
}

} // verus!
