//! Tags attached to session names, kept in insertion order.
use vstd::prelude::*;

verus! {

/// The contents of a list of strings.
pub open spec fn strings_view(v: Seq<String>) -> Seq<Seq<char>> {
    v.map_values(|s: String| s@)
}

/// One session name with its tags.
#[derive(Debug, Clone, PartialEq, Eq)]
pub struct TagEntry {
    pub session: String,
    pub tags: Vec<String>,
}

impl View for TagEntry {
    type V = (Seq<char>, Seq<Seq<char>>);

    open spec fn view(&self) -> (Seq<char>, Seq<Seq<char>>) {
        (self.session@, strings_view(self.tags@))
    }
}

/// A table from session names to lists of tags; each name occurs once.
#[derive(Debug, Clone, PartialEq, Eq)]
pub struct TagTable {
    pub entries: Vec<TagEntry>,
}

/// A tag table as plain values: pairs of a name and its tags.
pub type TableView = Seq<(Seq<char>, Seq<Seq<char>>)>;

impl View for TagTable {
    type V = TableView;

    open spec fn view(&self) -> TableView {
        self.entries@.map_values(|e: TagEntry| e@)
    }
}

/// No name occurs twice.
pub open spec fn keys_unique(t: TableView) -> bool {
    forall|i: int, j: int|
        0 <= i < t.len() && 0 <= j < t.len() && i != j ==> #[trigger] t[i].0 != #[trigger] t[j].0
}

/// `k` is the name of entry `i`.
pub open spec fn key_at(t: TableView, k: Seq<char>, i: int) -> bool {
    0 <= i < t.len() && t[i].0 == k
}

/// `k` has an entry.
pub open spec fn has_key(t: TableView, k: Seq<char>) -> bool {
    exists|i: int| key_at(t, k, i)
}

/// The position of the entry for `k`, where there is one.
pub open spec fn position_of(t: TableView, k: Seq<char>) -> int {
    choose|i: int| key_at(t, k, i)
}

/// The tags of `k`; none where it has no entry.
pub open spec fn tags_of(t: TableView, k: Seq<char>) -> Seq<Seq<char>> {
    if has_key(t, k) {
        t[position_of(t, k)].1
    } else {
        Seq::empty()
    }
}

/// `s` without any occurrence of `x`.
pub open spec fn without(s: Seq<Seq<char>>, x: Seq<char>) -> Seq<Seq<char>>
    decreases s.len(),
{
    if s.len() == 0 {
        s
    } else if s.last() == x {
        without(s.drop_last(), x)
    } else {
        without(s.drop_last(), x).push(s.last())
    }
}

/// The names whose tags hold `tag`, in table order.
pub open spec fn names_with(t: TableView, tag: Seq<char>) -> Seq<Seq<char>>
    decreases t.len(),
{
    if t.len() == 0 {
        Seq::empty()
    } else if t.last().1.contains(tag) {
        names_with(t.drop_last(), tag).push(t.last().0)
    } else {
        names_with(t.drop_last(), tag)
    }
}

/// The table after tagging `k` with `tag`: the tag is appended to the entry
/// of `k` unless it is there already; a missing entry is appended.
pub open spec fn table_with_tag(t: TableView, k: Seq<char>, tag: Seq<char>) -> TableView {
    if has_key(t, k) {
        let i = position_of(t, k);
        if t[i].1.contains(tag) {
            t
        } else {
            t.update(i, (k, t[i].1.push(tag)))
        }
    } else {
        t.push((k, seq![tag]))
    }
}

/// The table after removing `tag` from `k`; an entry left with no tags goes.
pub open spec fn table_without_tag(t: TableView, k: Seq<char>, tag: Seq<char>) -> TableView {
    if has_key(t, k) {
        let i = position_of(t, k);
        let rest = without(t[i].1, tag);
        if rest.len() == 0 {
            t.remove(i)
        } else {
            t.update(i, (k, rest))
        }
    } else {
        t
    }
}

proof fn lemma_position(t: TableView, k: Seq<char>, i: int)
    requires
        keys_unique(t),
        key_at(t, k, i),
    ensures
        has_key(t, k),
        position_of(t, k) == i,
        tags_of(t, k) == t[i].1,
{
    let j = position_of(t, k);
    assert(key_at(t, k, j));
}

/// Whether `v` holds a string equal to `s`.
pub fn contains_string(v: &Vec<String>, s: &String) -> (r: bool)
    ensures
        r == strings_view(v@).contains(s@),
{
    let mut i: usize = 0;
    while i < v.len()
        invariant
            i <= v@.len(),
            forall|j: int| 0 <= j < i ==> v@[j]@ != s@,
        decreases v@.len() - i,
    {
        if v[i] == *s {
            assert(strings_view(v@)[i as int] == s@);
            return true;
        }
        i = i + 1;
    }
    assert forall|j: int| 0 <= j < strings_view(v@).len() implies strings_view(v@)[j] != s@ by {
        assert(strings_view(v@)[j] == v@[j]@);
    }
    false
}

impl TagTable {
    /// An empty table.
    pub fn new() -> (r: TagTable)
        ensures
            r@ == Seq::<(Seq<char>, Seq<Seq<char>>)>::empty(),
    {
        TagTable { entries: Vec::new() }
    }

    /// Each name occurs once.
    pub open spec fn wf(&self) -> bool {
        keys_unique(self@)
    }

    /// Whether the table has no entry.
    pub fn is_empty(&self) -> (r: bool)
        ensures
            r == (self@.len() == 0),
    {
        self.entries.len() == 0
    }

    /// The number of entries.
    pub fn len(&self) -> (r: usize)
        ensures
            r == self@.len(),
    {
        self.entries.len()
    }

    /// The position of the entry named `key`, if any.
    fn find(&self, key: &String) -> (r: Option<usize>)
        requires
            self.wf(),
        ensures
            r matches Some(i) ==> key_at(self@, key@, i as int) && position_of(self@, key@)
                == i,
            r is None <==> !has_key(self@, key@),
    {
        let mut i: usize = 0;
        while i < self.entries.len()
            invariant
                i <= self.entries@.len(),
                self.wf(),
                forall|j: int| 0 <= j < i ==> !key_at(self@, key@, j),
            decreases self.entries@.len() - i,
        {
            if self.entries[i].session == *key {
                proof {
                    lemma_position(self@, key@, i as int);
                }
                return Some(i);
            }
            i = i + 1;
        }
        None
    }

    /// Whether `key` has an entry.
    pub fn contains_key(&self, key: &str) -> (r: bool)
        requires
            self.wf(),
        ensures
            r == has_key(self@, key@),
    {
        let k = key.to_owned();
        self.find(&k).is_some()
    }
}

/// Tags and groups of sessions.
#[derive(Debug, Clone, PartialEq, Eq)]
pub struct Config {
    /// Session name to its tags.
    pub tags: TagTable,
    /// Group name to its session names.
    pub groups: TagTable,
}

impl Default for Config {
    fn default() -> (r: Config)
        ensures
            r.tags@.len() == 0,
            r.groups@.len() == 0,
    {
        Config { tags: TagTable::new(), groups: TagTable::new() }
    }
}

impl Config {
    /// Both tables name each key once.
    pub open spec fn wf(&self) -> bool {
        self.tags.wf() && self.groups.wf()
    }

    /// Tags `session` with `tag`, once.
    pub fn add_tag(&mut self, session: &str, tag: &str)
        requires
            old(self).wf(),
        ensures
            final(self).wf(),
            final(self).tags@ == table_with_tag(old(self).tags@, session@, tag@),
            final(self).groups == old(self).groups,
    {
        let key = session.to_owned();
        let t = tag.to_owned();
        let ghost before = self.tags@;
        match self.tags.find(&key) {
            Some(i) => {
                if contains_string(&self.tags.entries[i].tags, &t) {
                    return;
                }
                let ghost old_entries = self.tags.entries@;
                let ghost old_tags = self.tags.entries@[i as int].tags@;
                let ghost tv = t@;
                self.tags.entries[i].tags.push(t);
                assert(self.tags.entries@[i as int].tags@ == old_tags.push(t));
                assert(strings_view(old_tags.push(t)) =~= strings_view(old_tags).push(tv));
                assert(self.tags.entries@ =~= old_entries.update(i as int, self.tags.entries@[i as int]));
                assert(self.tags@ =~= before.update(i as int, (key@, before[i as int].1.push(tag@))));
                assert(forall|j: int| 0 <= j < before.len() ==> #[trigger] self.tags@[j].0 == before[j].0);
            },
            None => {
                let ghost tv = t@;
                let tags: Vec<String> = vec![t];
                assert(strings_view(tags@) =~= seq![tv]);
                let ghost old_entries = self.tags.entries@;
                self.tags.entries.push(TagEntry { session: key, tags });
                assert(self.tags@ =~= before.push((key@, seq![tag@])));
                assert forall|a: int, b: int|
                    0 <= a < self.tags@.len() && 0 <= b < self.tags@.len() && a != b implies
                        #[trigger] self.tags@[a].0 != #[trigger] self.tags@[b].0 by {
                    if a == before.len() {
                        assert(!key_at(before, key@, b));
                    } else if b == before.len() {
                        assert(!key_at(before, key@, a));
                    }
                }
            },
        }
    }

    /// Removes `tag` from `session`; a session left with no tags loses its entry.
    pub fn remove_tag(&mut self, session: &str, tag: &str)
        requires
            old(self).wf(),
        ensures
            final(self).wf(),
            final(self).tags@ == table_without_tag(old(self).tags@, session@, tag@),
            final(self).groups == old(self).groups,
    {
        let key = session.to_owned();
        let t = tag.to_owned();
        let ghost before = self.tags@;
        match self.tags.find(&key) {
            Some(i) => {
                let rest = strings_without(&self.tags.entries[i].tags, &t);
                if rest.len() == 0 {
                    let ghost old_entries = self.tags.entries@;
                    self.tags.entries.remove(i);
                    assert(self.tags@ =~= before.remove(i as int));
                    assert forall|a: int, b: int|
                        0 <= a < self.tags@.len() && 0 <= b < self.tags@.len() && a != b implies
                            #[trigger] self.tags@[a].0 != #[trigger] self.tags@[b].0 by {
                        let a0 = if a < i { a } else { a + 1 };
                        let b0 = if b < i { b } else { b + 1 };
                        assert(self.tags@[a] == before[a0]);
                        assert(self.tags@[b] == before[b0]);
                    }
                } else {
                    let ghost old_entries = self.tags.entries@;
                    self.tags.entries[i].tags = rest;
                    assert(self.tags.entries@ =~= old_entries.update(i as int, self.tags.entries@[i as int]));
                    assert(self.tags@ =~= before.update(i as int, (key@, without(before[i as int].1, tag@))));
                    assert(forall|j: int| 0 <= j < before.len() ==> #[trigger] self.tags@[j].0 == before[j].0);
                }
            },
            None => {},
        }
    }

    /// The tags of `session`, in the order they were added; none if it has no entry.
    pub fn get_tags(&self, session: &str) -> (r: Vec<String>)
        requires
            self.wf(),
        ensures
            strings_view(r@) == tags_of(self.tags@, session@),
    {
        let key = session.to_owned();
        match self.tags.find(&key) {
            Some(i) => {
                proof {
                    lemma_position(self.tags@, key@, i as int);
                }
                copy_strings(&self.tags.entries[i].tags)
            },
            None => {
                let r: Vec<String> = Vec::new();
                assert(strings_view(r@) =~= Seq::<Seq<char>>::empty());
                r
            },
        }
    }

    /// The names of the sessions tagged with `tag`, in table order.
    pub fn sessions_with_tag(&self, tag: &str) -> (r: Vec<String>)
        ensures
            strings_view(r@) == names_with(self.tags@, tag@),
    {
        let t = tag.to_owned();
        let mut out: Vec<String> = Vec::new();
        let mut i: usize = 0;
        while i < self.tags.entries.len()
            invariant
                i <= self.tags.entries@.len(),
                t@ == tag@,
                strings_view(out@) == names_with(self.tags@.take(i as int), tag@),
            decreases self.tags.entries@.len() - i,
        {
            let ghost prefix = self.tags@.take(i + 1);
            assert(prefix.drop_last() =~= self.tags@.take(i as int));
            assert(prefix.last() == self.tags@[i as int]);
            if contains_string(&self.tags.entries[i].tags, &t) {
                let ghost before = out@;
                out.push(self.tags.entries[i].session.clone());
                assert(strings_view(out@) =~= strings_view(before).push(self.tags@[i as int].0));
            }
            i = i + 1;
        }
        assert(self.tags@.take(self.tags@.len() as int) =~= self.tags@);
        out
    }
}

/// A copy of a list of strings.
fn copy_strings(v: &Vec<String>) -> (r: Vec<String>)
    ensures
        strings_view(r@) == strings_view(v@),
{
    let mut out: Vec<String> = Vec::new();
    let mut i: usize = 0;
    while i < v.len()
        invariant
            i <= v@.len(),
            strings_view(out@) == strings_view(v@.take(i as int)),
        decreases v@.len() - i,
    {
        let ghost before = out@;
        out.push(v[i].clone());
        assert(strings_view(out@) =~= strings_view(before).push(v@[i as int]@));
        assert(strings_view(v@.take(i + 1)) =~= strings_view(v@.take(i as int)).push(v@[i as int]@));
        i = i + 1;
    }
    assert(v@.take(v@.len() as int) =~= v@);
    out
}

/// The strings of `v` other than those equal to `x`, in order.
fn strings_without(v: &Vec<String>, x: &String) -> (r: Vec<String>)
    ensures
        strings_view(r@) == without(strings_view(v@), x@),
{
    let mut out: Vec<String> = Vec::new();
    let mut i: usize = 0;
    while i < v.len()
        invariant
            i <= v@.len(),
            strings_view(out@) == without(strings_view(v@.take(i as int)), x@),
        decreases v@.len() - i,
    {
        let ghost pre = strings_view(v@.take(i + 1));
        assert(pre.drop_last() =~= strings_view(v@.take(i as int)));
        assert(pre.last() == v@[i as int]@);
        if v[i] != *x {
            let ghost before = out@;
            out.push(v[i].clone());
            assert(strings_view(out@) =~= strings_view(before).push(v@[i as int]@));
        }
        i = i + 1;
    }
    assert(v@.take(v@.len() as int) =~= v@);
    out
}

} // verus!
