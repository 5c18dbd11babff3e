//! Fuzzy filtering of sessions by name.
use vstd::prelude::*;

use nucleo_matcher::pattern::{AtomKind, CaseMatching, Normalization, Pattern};

use crate::types::{names_of, Session};

verus! {

/// The score and matched character positions that the fuzzy matcher gives
/// `name` for `query` (case-insensitive, normalised, fuzzy atoms), or `None`
/// when it does not match.
pub uninterp spec fn fuzzy_match_of(query: Seq<char>, name: Seq<char>) -> Option<(u32, Seq<u32>)>;

/// Relies on nucleo_matcher's `Pattern::new` (ignoring case, smart
/// normalisation, fuzzy atoms) and `Pattern::indices` under the default
/// `Matcher` configuration: the score of `name` and the positions it
/// reports for the matched characters.
#[verifier::external_body]
fn fuzzy_indices(query: &str, name: &str) -> (r: Option<(u32, Vec<u32>)>)
    ensures
        r matches Some((score, pos)) ==> fuzzy_match_of(query@, name@) == Some((score, pos@)),
        r is None ==> fuzzy_match_of(query@, name@) is None,
{
    let mut matcher = nucleo_matcher::Matcher::new(nucleo_matcher::Config::DEFAULT);
    let pattern = Pattern::new(query, CaseMatching::Ignore, Normalization::Smart, AtomKind::Fuzzy);
    let mut buf = Vec::new();
    let mut pos = Vec::new();
    let haystack = nucleo_matcher::Utf32Str::new(name, &mut buf);
    pattern.indices(haystack, &mut matcher, &mut pos).map(|score| (score, pos))
}

/// One session that matched a query.
#[derive(Debug, Clone)]
pub struct MatchResult {
    /// Position of the session in the list that was searched.
    pub session_index: usize,
    /// Rank of the match; higher is better.
    pub score: u32,
    /// Positions of the matched characters of the name, ascending, each once.
    pub indices: Vec<u32>,
}

/// `s` is strictly ascending.
pub open spec fn strictly_ascending(s: Seq<u32>) -> bool {
    forall|a: int, b: int| 0 <= a < b < s.len() ==> s[a] < s[b]
}

/// `m` is what the matcher gave the session it points at, with the positions
/// that lie inside the name's characters, sorted and deduplicated.
pub open spec fn faithful(names: Seq<Seq<char>>, query: Seq<char>, m: MatchResult) -> bool {
    &&& m.session_index < names.len()
    &&& fuzzy_match_of(query, names[m.session_index as int]) matches Some((score, pos))
    &&& m.score == score
    &&& strictly_ascending(m.indices@)
    &&& forall|x: u32|
        m.indices@.contains(x) <==> pos.contains(x) && x < names[m.session_index as int].len()
    &&& forall|k: int|
        0 <= k < m.indices@.len() ==> #[trigger] m.indices@[k] < names[m.session_index as int].len()
}

/// `a` ranks above `b`: a higher score, or the same score and an earlier session.
pub open spec fn ranks_above(a: MatchResult, b: MatchResult) -> bool {
    a.score > b.score || (a.score == b.score && a.session_index < b.session_index)
}

/// `r` is the fuzzy filter of `names` by `query`: with an empty query every
/// session in order with score 0 and no positions; otherwise exactly the
/// sessions that match, best score first, ties in list order.
pub open spec fn is_filter_result(names: Seq<Seq<char>>, query: Seq<char>, r: Seq<MatchResult>) -> bool {
    if query.len() == 0 {
        &&& r.len() == names.len()
        &&& forall|k: int|
            0 <= k < r.len() ==> (#[trigger] r[k]).session_index == k && r[k].score == 0
                && r[k].indices@.len() == 0
    } else {
        &&& forall|k: int| 0 <= k < r.len() ==> faithful(names, query, #[trigger] r[k])
        &&& forall|k: int, l: int| 0 <= k < l < r.len() ==> ranks_above(r[k], r[l])
        &&& forall|i: int|
            0 <= i < names.len() && (#[trigger] fuzzy_match_of(query, names[i])) is Some ==> exists|
                k: int,
            | 0 <= k < r.len() && r[k].session_index == i
    }
}

/// The distinct values of `v`, ascending.
fn sorted_unique(v: &Vec<u32>) -> (r: Vec<u32>)
    ensures
        strictly_ascending(r@),
        forall|x: u32| r@.contains(x) <==> v@.contains(x),
{
    let mut out: Vec<u32> = Vec::new();
    let mut i: usize = 0;
    while i < v.len()
        invariant
            i <= v@.len(),
            strictly_ascending(out@),
            forall|x: u32| out@.contains(x) <==> v@.take(i as int).contains(x),
        decreases v@.len() - i,
    {
        let x = v[i];
        let mut p: usize = 0;
        while p < out.len() && out[p] < x
            invariant
                p <= out@.len(),
                forall|a: int| 0 <= a < p ==> out@[a] < x,
            decreases out@.len() - p,
        {
            p = p + 1;
        }
        let ghost before = out@;
        assert(v@.take(i + 1) =~= v@.take(i as int).push(x));
        if p < out.len() && out[p] == x {
            assert(before[p as int] == x);
            assert forall|y: u32| out@.contains(y) <==> before.contains(y) || y == x by {
                if y == x {
                    assert(before[p as int] == x);
                }
            }
        } else {
            out.insert(p, x);
            assert(out@ =~= before.take(p as int).push(x) + before.skip(p as int));
            assert forall|a: int, b: int| 0 <= a < b < out@.len() implies out@[a] < out@[b] by {
                if b < p {
                } else if b == p {
                } else if a < p {
                    assert(before[b - 1] > x) by {
                        if b - 1 > p {
                            assert(before[p as int] < before[b - 1]);
                        }
                    }
                } else if a == p {
                    assert(before[b - 1] >= before[p as int]);
                } else {
                    assert(before[a - 1] < before[b - 1]);
                }
            }
            assert forall|y: u32| out@.contains(y) <==> before.contains(y) || y == x by {
                if out@.contains(y) {
                    let k = choose|k: int| 0 <= k < out@.len() && #[trigger] out@[k] == y;
                    if k < p {
                        assert(before[k] == y);
                    } else if k > p {
                        assert(before[k - 1] == y);
                    }
                }
                if before.contains(y) {
                    let k = choose|k: int| 0 <= k < before.len() && #[trigger] before[k] == y;
                    if k < p {
                        assert(out@[k] == y);
                    } else {
                        assert(out@[k + 1] == y);
                    }
                }
                if y == x {
                    assert(out@[p as int] == x);
                }
            }
        }
        let ghost t1 = v@.take(i + 1);
        let ghost t0 = v@.take(i as int);
        assert forall|y: u32| t1.contains(y) <==> t0.contains(y) || y == x by {
            if t1.contains(y) {
                let k = choose|k: int| 0 <= k < t1.len() && #[trigger] t1[k] == y;
                if k < i {
                    assert(t0[k] == y);
                }
            }
            if t0.contains(y) {
                let k = choose|k: int| 0 <= k < t0.len() && #[trigger] t0[k] == y;
                assert(t1[k] == y);
            }
            if y == x {
                assert(t1[i as int] == y);
            }
        }
        assert forall|y: u32| out@.contains(y) <==> t1.contains(y) by {
            assert(before.contains(y) <==> t0.contains(y));
        }
        i = i + 1;
    }
    assert(v@.take(v@.len() as int) =~= v@);
    out
}

/// The values of the ascending `v` that are below `n`.
fn below(v: &Vec<u32>, n: usize) -> (r: Vec<u32>)
    requires
        strictly_ascending(v@),
    ensures
        strictly_ascending(r@),
        forall|x: u32| r@.contains(x) <==> v@.contains(x) && x < n,
        forall|k: int| 0 <= k < r@.len() ==> #[trigger] r@[k] < n,
{
    let mut out: Vec<u32> = Vec::new();
    let mut i: usize = 0;
    while i < v.len()
        invariant
            i <= v@.len(),
            strictly_ascending(v@),
            strictly_ascending(out@),
            forall|k: int| 0 <= k < out@.len() ==> #[trigger] out@[k] < n,
            out@.len() > 0 && i < v@.len() ==> out@.last() < v@[i as int],
            forall|x: u32| out@.contains(x) <==> v@.take(i as int).contains(x) && x < n,
        decreases v@.len() - i,
    {
        let x = v[i];
        let ghost before = out@;
        let ghost t1 = v@.take(i + 1);
        let ghost t0 = v@.take(i as int);
        assert(t1 =~= t0.push(x));
        if (x as usize) < n {
            out.push(x);
            assert forall|a: int, b: int| 0 <= a < b < out@.len() implies out@[a] < out@[b] by {
                if b == out@.len() - 1 && a < b {
                    if a < before.len() - 1 {
                        assert(before[a] < before.last());
                    }
                }
            }
        }
        assert forall|y: u32| out@.contains(y) <==> t1.contains(y) && y < n by {
            if out@.contains(y) {
                let k = choose|k: int| 0 <= k < out@.len() && #[trigger] out@[k] == y;
                if k < before.len() {
                    assert(before.contains(y));
                } else {
                    assert(t1[i as int] == y);
                }
            }
            if t1.contains(y) && y < n {
                let k = choose|k: int| 0 <= k < t1.len() && #[trigger] t1[k] == y;
                if k < i {
                    assert(t0[k] == y);
                    assert(before.contains(y));
                    let j = choose|j: int| 0 <= j < before.len() && #[trigger] before[j] == y;
                    assert(out@[j] == y);
                } else {
                    assert(out@[out@.len() - 1] == y);
                }
            }
        }
        if i + 1 < v.len() && out.len() > 0 {
            assert(v@[i as int] < v@[i + 1]);
        }
        i = i + 1;
    }
    assert(v@.take(v@.len() as int) =~= v@);
    out
}

/// The sessions whose names match `query`, best first; every session with
/// score 0 when the query is empty.
pub fn fuzzy_match_sessions(sessions: &[Session], query: &str) -> (r: Vec<MatchResult>)
    ensures
        is_filter_result(names_of(sessions@), query@, r@),
{
    let ghost names = names_of(sessions@);
    let mut results: Vec<MatchResult> = Vec::new();
    if query.is_empty() {
        let mut i: usize = 0;
        while i < sessions.len()
            invariant
                i <= sessions@.len(),
                results@.len() == i,
                forall|k: int|
                    0 <= k < i ==> (#[trigger] results@[k]).session_index == k
                        && results@[k].score == 0 && results@[k].indices@.len() == 0,
            decreases sessions@.len() - i,
        {
            results.push(MatchResult { session_index: i, score: 0, indices: Vec::new() });
            i = i + 1;
        }
        return results;
    }
    let mut i: usize = 0;
    while i < sessions.len()
        invariant
            i <= sessions@.len(),
            names == names_of(sessions@),
            query@.len() > 0,
            forall|k: int| 0 <= k < results@.len() ==> faithful(names, query@, #[trigger] results@[k]),
            forall|k: int| 0 <= k < results@.len() ==> (#[trigger] results@[k]).session_index < i,
            forall|k: int, l: int|
                0 <= k < l < results@.len() ==> ranks_above(results@[k], results@[l]),
            forall|j: int|
                0 <= j < i && (#[trigger] fuzzy_match_of(query@, names[j])) is Some ==> exists|
                    k: int,
                | 0 <= k < results@.len() && results@[k].session_index == j,
        decreases sessions@.len() - i,
    {
        assert(names[i as int] == sessions@[i as int].name@);
        match fuzzy_indices(query, sessions[i].name.as_str()) {
            Some((score, pos)) => {
                let sorted = sorted_unique(&pos);
                let indices = below(&sorted, sessions[i].name.as_str().unicode_len());
                let m = MatchResult { session_index: i, score, indices };
                let mut p: usize = 0;
                while p < results.len() && results[p].score >= score
                    invariant
                        p <= results@.len(),
                        forall|a: int| 0 <= a < p ==> results@[a].score >= score,
                    decreases results@.len() - p,
                {
                    p = p + 1;
                }
                let ghost before = results@;
                results.insert(p, m);
                assert(results@ =~= before.take(p as int).push(m) + before.skip(p as int));
                assert forall|k: int, l: int|
                    0 <= k < l < results@.len() implies ranks_above(results@[k], results@[l]) by {
                    if l < p {
                    } else if l == p {
                    } else if k < p {
                        assert(before[l - 1].score < score) by {
                            if l - 1 > p {
                                assert(ranks_above(before[p as int], before[l - 1]));
                            }
                        }
                    } else if k == p {
                        assert(before[l - 1].score < score) by {
                            if l - 1 > p {
                                assert(ranks_above(before[p as int], before[l - 1]));
                            }
                        }
                    } else {
                        assert(ranks_above(before[k - 1], before[l - 1]));
                    }
                }
                assert forall|k: int| 0 <= k < results@.len() implies faithful(
                    names,
                    query@,
                    #[trigger] results@[k],
                ) && results@[k].session_index < i + 1 by {
                    if k < p {
                        assert(results@[k] == before[k]);
                    } else if k > p {
                        assert(results@[k] == before[k - 1]);
                    }
                }
                assert forall|j: int|
                    0 <= j < i + 1 && (#[trigger] fuzzy_match_of(query@, names[j])) is Some implies exists|
                        k: int,
                    | 0 <= k < results@.len() && results@[k].session_index == j by {
                    if j == i {
                        assert(results@[p as int].session_index == j);
                    } else {
                        let k = choose|k: int| 0 <= k < before.len() && #[trigger] before[k].session_index == j;
                        if k < p {
                            assert(results@[k] == before[k]);
                        } else {
                            assert(results@[k + 1] == before[k]);
                        }
                    }
                }
            },
            None => {},
        }
        i = i + 1;
    }
    results
}

/// A non-empty query that no name matches filters every session out.
pub proof fn law_no_match_is_empty(names: Seq<Seq<char>>, query: Seq<char>, r: Seq<MatchResult>)
    requires
        is_filter_result(names, query, r),
        query.len() > 0,
        forall|i: int| 0 <= i < names.len() ==> fuzzy_match_of(query, #[trigger] names[i]) is None,
    ensures
        r.len() == 0,
{
    if r.len() > 0 {
        assert(faithful(names, query, r[0]));
        let i = r[0].session_index as int;
        assert(fuzzy_match_of(query, names[i]) is None);
    }
}

/// With an empty query every session comes back, in list order, with score 0
/// and no highlighted positions.
pub proof fn law_empty_query_keeps_all(names: Seq<Seq<char>>, r: Seq<MatchResult>)
    requires
        is_filter_result(names, Seq::empty(), r),
    ensures
        r.len() == names.len(),
        forall|k: int| 0 <= k < r.len() ==> (#[trigger] r[k]).session_index == k && r[k].score == 0,
{
}

/// Every highlighted position lies within the name of the session it marks.
pub proof fn law_positions_within_name(names: Seq<Seq<char>>, query: Seq<char>, r: Seq<MatchResult>, k: int, j: int)
    requires
        is_filter_result(names, query, r),
        0 <= k < r.len(),
        0 <= j < r[k].indices@.len(),
    ensures
        r[k].session_index < names.len(),
        r[k].indices@[j] < names[r[k].session_index as int].len(),
{
    if query.len() > 0 {
        assert(faithful(names, query, r[k]));
    }
}

} // verus!
