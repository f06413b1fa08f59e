//! Tables keyed by name, and their order.

use crate::text;
use crate::text::{comes_before, same_text};
use vstd::prelude::*;

verus! {

/// A table of values, each under a name of its own.
#[derive(Debug)]
pub struct NameMap<V> {
    entries: Vec<(String, V)>,
}

/// No name occurs twice.
pub open spec fn names_distinct<V>(entries: Seq<(String, V)>) -> bool {
    forall|i: int, j: int|
        0 <= i < j < entries.len() ==> #[trigger] entries[i].0@ != #[trigger] entries[j].0@
}

/// The names increase.
pub open spec fn names_sorted<V>(entries: Seq<(String, V)>) -> bool {
    forall|i: int, j: int|
        0 <= i < j < entries.len() ==> text::text_lt(
            #[trigger] entries[i].0@,
            #[trigger] entries[j].0@,
        )
}

/// What a list of entries says of each name.
pub open spec fn entry_map<V>(entries: Seq<(String, V)>) -> Map<Seq<char>, V>
    decreases entries.len(),
{
    if entries.len() == 0 {
        Map::empty()
    } else {
        entry_map(entries.drop_last()).insert(entries.last().0@, entries.last().1)
    }
}

/// The names in a list of strings increase.
pub open spec fn strings_sorted(names: Seq<String>) -> bool {
    forall|i: int, j: int|
        0 <= i < j < names.len() ==> text::text_lt(#[trigger] names[i]@, #[trigger] names[j]@)
}

/// Some entry of `names` is `name`.
pub open spec fn lists_name(names: Seq<String>, name: Seq<char>) -> bool {
    exists|i: int| 0 <= i < names.len() && #[trigger] names[i]@ == name
}

/// With distinct names, the map holds the listed names and their values.
pub proof fn lemma_entry_map<V>(entries: Seq<(String, V)>)
    requires
        names_distinct(entries),
    ensures
        forall|i: int|
            0 <= i < entries.len() ==> entry_map(entries).contains_key(#[trigger] entries[i].0@)
                && entry_map(entries)[entries[i].0@] == entries[i].1,
        forall|name: Seq<char>| #[trigger]
            entry_map(entries).contains_key(name) ==> exists|i: int|
                0 <= i < entries.len() && #[trigger] entries[i].0@ == name,
        entry_map(entries).dom().finite(),
        entry_map(entries).dom().len() == entries.len(),
    decreases entries.len(),
{
    if entries.len() > 0 {
        let rest = entries.drop_last();
        assert(names_distinct(rest)) by {
            assert forall|i: int, j: int| 0 <= i < j < rest.len() implies #[trigger] rest[i].0@
                != #[trigger] rest[j].0@ by {
                assert(rest[i] == entries[i] && rest[j] == entries[j]);
            }
        }
        lemma_entry_map(rest);
        let last = entries.last();
        assert(entries[entries.len() - 1] == last);
        assert(!entry_map(rest).contains_key(last.0@)) by {
            if entry_map(rest).contains_key(last.0@) {
                let i = choose|i: int| 0 <= i < rest.len() && #[trigger] rest[i].0@ == last.0@;
                assert(rest[i] == entries[i]);
            }
        }
        assert forall|i: int| 0 <= i < entries.len() implies entry_map(entries).contains_key(
            #[trigger] entries[i].0@,
        ) && entry_map(entries)[entries[i].0@] == entries[i].1 by {
            if i < entries.len() - 1 {
                assert(rest[i] == entries[i]);
            }
        }
        assert forall|name: Seq<char>| #[trigger]
            entry_map(entries).contains_key(name) implies exists|i: int|
            0 <= i < entries.len() && #[trigger] entries[i].0@ == name by {
            if name == last.0@ {
                assert(entries[entries.len() - 1].0@ == name);
            } else {
                let i = choose|i: int| 0 <= i < rest.len() && #[trigger] rest[i].0@ == name;
                assert(entries[i].0@ == name);
            }
        }
    }
}

/// Two lists with distinct names and the same entries say the same.
proof fn lemma_same_entries<V>(a: Seq<(String, V)>, b: Seq<(String, V)>)
    requires
        names_distinct(a),
        names_distinct(b),
        forall|entry: (String, V)| #[trigger] a.contains(entry) ==> b.contains(entry),
        forall|entry: (String, V)| #[trigger] b.contains(entry) ==> a.contains(entry),
    ensures
        entry_map(a) == entry_map(b),
{
    lemma_entry_map(a);
    lemma_entry_map(b);
    assert forall|name: Seq<char>| entry_map(a).contains_key(name) == entry_map(b).contains_key(
        name,
    ) && (entry_map(a).contains_key(name) ==> entry_map(a)[name] == entry_map(b)[name]) by {
        if entry_map(a).contains_key(name) {
            let i = choose|i: int| 0 <= i < a.len() && #[trigger] a[i].0@ == name;
            assert(a.contains(a[i]));
            let j = choose|j: int| 0 <= j < b.len() && b[j] == a[i];
            assert(b[j].0@ == name);
        }
        if entry_map(b).contains_key(name) {
            let j = choose|j: int| 0 <= j < b.len() && #[trigger] b[j].0@ == name;
            assert(b.contains(b[j]));
            let i = choose|i: int| 0 <= i < a.len() && a[i] == b[j];
            assert(a[i].0@ == name);
        }
    }
    assert(entry_map(a) =~= entry_map(b));
}

/// A list with increasing names has distinct ones.
pub proof fn lemma_sorted_distinct<V>(entries: Seq<(String, V)>)
    requires
        names_sorted(entries),
    ensures
        names_distinct(entries),
{
    assert forall|i: int, j: int| 0 <= i < j < entries.len() implies #[trigger] entries[i].0@
        != #[trigger] entries[j].0@ by {
        text::lemma_text_lt_strict(entries[i].0@, entries[j].0@);
    }
}

/// A table has one sorted listing: two lists with increasing names that say
/// the same of each name are equal entry by entry.
pub proof fn law_sorted_listing_is_unique<V>(a: Seq<(String, V)>, b: Seq<(String, V)>)
    requires
        names_sorted(a),
        names_sorted(b),
        entry_map(a) == entry_map(b),
    ensures
        a.len() == b.len(),
        forall|i: int| 0 <= i < a.len() ==> #[trigger] a[i].0@ == b[i].0@ && a[i].1 == b[i].1,
    decreases a.len(),
{
    lemma_sorted_distinct(a);
    lemma_sorted_distinct(b);
    lemma_entry_map(a);
    lemma_entry_map(b);
    if a.len() > 0 {
        let m = a.len() - 1;
        let n = b.len() - 1;
        assert(entry_map(a).contains_key(a[m].0@));
        let j = choose|j: int| 0 <= j < b.len() && #[trigger] b[j].0@ == a[m].0@;
        assert(entry_map(b).contains_key(b[n].0@));
        let i = choose|i: int| 0 <= i < a.len() && #[trigger] a[i].0@ == b[n].0@;
        if j < n {
            assert(text::text_lt(b[j].0@, b[n].0@));
            if i < m {
                assert(text::text_lt(a[i].0@, a[m].0@));
                text::lemma_text_lt_strict(a[i].0@, a[m].0@);
            } else {
                text::lemma_text_lt_strict(b[j].0@, b[n].0@);
            }
        }
        assert(a[m].0@ == b[n].0@);
        assert(entry_map(a)[a[m].0@] == a[m].1);
        assert(entry_map(b)[b[n].0@] == b[n].1);
        let c = a.drop_last();
        let d = b.drop_last();
        assert forall|x: int, y: int| 0 <= x < y < c.len() implies text::text_lt(
            #[trigger] c[x].0@,
            #[trigger] c[y].0@,
        ) by {
            assert(c[x] == a[x] && c[y] == a[y]);
        }
        assert forall|x: int, y: int| 0 <= x < y < d.len() implies text::text_lt(
            #[trigger] d[x].0@,
            #[trigger] d[y].0@,
        ) by {
            assert(d[x] == b[x] && d[y] == b[y]);
        }
        lemma_sorted_distinct(c);
        lemma_sorted_distinct(d);
        lemma_entry_map(c);
        lemma_entry_map(d);
        let key = a[m].0@;
        assert(!entry_map(c).contains_key(key)) by {
            if entry_map(c).contains_key(key) {
                let x = choose|x: int| 0 <= x < c.len() && #[trigger] c[x].0@ == key;
                assert(c[x] == a[x]);
            }
        }
        assert(!entry_map(d).contains_key(key)) by {
            if entry_map(d).contains_key(key) {
                let x = choose|x: int| 0 <= x < d.len() && #[trigger] d[x].0@ == key;
                assert(d[x] == b[x]);
            }
        }
        assert(entry_map(c) =~= entry_map(a).remove(key));
        assert(entry_map(d) =~= entry_map(b).remove(key));
        law_sorted_listing_is_unique(c, d);
        assert(m == n);
        assert forall|x: int| 0 <= x < a.len() implies #[trigger] a[x].0@ == b[x].0@ && a[x].1
            == b[x].1 by {
            if x < m {
                assert(c[x] == a[x] && d[x] == b[x]);
                assert(c[x].0@ == d[x].0@);
            } else {
                assert(x == m);
            }
        }
    } else {
        if b.len() > 0 {
            assert(entry_map(b).contains_key(b[0].0@));
        }
    }
}

/// The texts of a list of strings.
pub open spec fn texts_of(names: Seq<String>) -> Seq<Seq<char>> {
    names.map_values(|name: String| name@)
}

/// The texts increase.
pub open spec fn texts_sorted(texts: Seq<Seq<char>>) -> bool {
    forall|i: int, j: int|
        0 <= i < j < texts.len() ==> text::text_lt(#[trigger] texts[i], #[trigger] texts[j])
}

/// Without its last text, an increasing list has the same texts but that one.
proof fn lemma_sorted_drop_last(texts: Seq<Seq<char>>)
    requires
        texts_sorted(texts),
        texts.len() > 0,
    ensures
        texts_sorted(texts.drop_last()),
        forall|text: Seq<char>| #[trigger]
            texts.drop_last().contains(text) <==> texts.contains(text) && text != texts.last(),
{
    let shorter = texts.drop_last();
    assert forall|i: int, j: int| 0 <= i < j < shorter.len() implies text::text_lt(
        #[trigger] shorter[i],
        #[trigger] shorter[j],
    ) by {
        assert(text::text_lt(texts[i], texts[j]));
    }
    assert forall|text: Seq<char>| #[trigger]
        shorter.contains(text) <==> texts.contains(text) && text != texts.last() by {
        if shorter.contains(text) {
            let i = choose|i: int| 0 <= i < shorter.len() && shorter[i] == text;
            assert(texts[i] == text);
            assert(text::text_lt(texts[i], texts[texts.len() - 1]));
            text::lemma_text_lt_strict(texts[i], texts[texts.len() - 1]);
        }
        if texts.contains(text) && text != texts.last() {
            let i = choose|i: int| 0 <= i < texts.len() && texts[i] == text;
            assert(shorter[i] == text);
        }
    }
}

/// A set of texts has one increasing list.
pub proof fn law_sorted_texts_are_unique(a: Seq<Seq<char>>, b: Seq<Seq<char>>)
    requires
        texts_sorted(a),
        texts_sorted(b),
        forall|text: Seq<char>| #[trigger] a.contains(text) <==> b.contains(text),
    ensures
        a == b,
    decreases a.len(),
{
    if a.len() == 0 {
        if b.len() > 0 {
            assert(b.contains(b[0]));
            assert(a.contains(b[0]));
        }
        assert(a =~= b);
    } else {
        let m = a.len() - 1;
        let n = b.len() - 1;
        assert(a.contains(a[m]));
        assert(b.contains(a[m]));
        assert(b.contains(b[n]));
        assert(a.contains(b[n]));
        let j = choose|j: int| 0 <= j < b.len() && b[j] == a[m];
        let i = choose|i: int| 0 <= i < a.len() && a[i] == b[n];
        if j < n && i < m {
            assert(text::text_lt(b[j], b[n]));
            assert(text::text_lt(a[i], a[m]));
            text::lemma_text_lt_trans(a[m], b[n], a[m]);
            text::lemma_text_lt_strict(a[m], a[m]);
        }
        assert(a.last() == b.last());
        lemma_sorted_drop_last(a);
        lemma_sorted_drop_last(b);
        law_sorted_texts_are_unique(a.drop_last(), b.drop_last());
        assert(a =~= a.drop_last().push(a.last()));
        assert(b =~= b.drop_last().push(b.last()));
    }
}

impl<V> View for NameMap<V> {
    type V = Map<Seq<char>, V>;

    closed spec fn view(&self) -> Map<Seq<char>, V> {
        entry_map(self.entries@)
    }
}

impl<V> NameMap<V> {
    /// No name occurs twice.
    pub closed spec fn wf(&self) -> bool {
        names_distinct(self.entries@)
    }

    /// The empty table.
    pub fn new() -> (table: NameMap<V>)
        ensures
            table.wf(),
            table@ == Map::<Seq<char>, V>::empty(),
    {
        NameMap { entries: Vec::new() }
    }

    /// The number of names.
    pub fn len(&self) -> (len: usize)
        requires
            self.wf(),
        ensures
            self@.dom().finite(),
            len == self@.dom().len(),
    {
        proof {
            lemma_entry_map(self.entries@);
        }
        self.entries.len()
    }

    /// The entries, in no particular order.
    pub fn entries(&self) -> (entries: &Vec<(String, V)>)
        requires
            self.wf(),
        ensures
            names_distinct(entries@),
            entry_map(entries@) == self@,
    {
        &self.entries
    }

    /// The place of a name in the list, or the length of the list.
    fn position(&self, name: &str) -> (at: usize)
        ensures
            at <= self.entries@.len(),
            at < self.entries@.len() ==> self.entries@[at as int].0@ == name@,
            at == self.entries@.len() ==> forall|i: int|
                0 <= i < self.entries@.len() ==> #[trigger] self.entries@[i].0@ != name@,
    {
        let mut at: usize = 0;
        while at < self.entries.len()
            invariant
                at <= self.entries@.len(),
                forall|i: int| 0 <= i < at ==> #[trigger] self.entries@[i].0@ != name@,
            decreases self.entries@.len() - at,
        {
            if same_text(self.entries[at].0.as_str(), name) {
                return at;
            }
            at = at + 1;
        }
        at
    }

    /// The value under a name.
    pub fn get(&self, name: &str) -> (found: Option<&V>)
        requires
            self.wf(),
        ensures
            match found {
                Some(value) => self@.contains_key(name@) && *value == self@[name@],
                None => !self@.contains_key(name@),
            },
    {
        proof {
            lemma_entry_map(self.entries@);
        }
        let at = self.position(name);
        if at < self.entries.len() {
            Some(&self.entries[at].1)
        } else {
            None
        }
    }

    /// Puts a value under a name, in place of the one that was there.
    pub fn insert(&mut self, name: String, value: V)
        requires
            old(self).wf(),
        ensures
            final(self).wf(),
            final(self)@ == old(self)@.insert(name@, value),
    {
        let ghost before = self.entries@;
        let at = self.position(name.as_str());
        if at < self.entries.len() {
            let ghost entry = (name, value);
            self.entries.set(at, (name, value));
            proof {
                lemma_entry_map(before);
                let after = self.entries@;
                assert(after =~= before.update(at as int, entry));
                assert forall|i: int, j: int| 0 <= i < j < after.len() implies #[trigger] after[i].0@
                    != #[trigger] after[j].0@ by {
                    assert(after[i].0@ == before[i].0@);
                    assert(after[j].0@ == before[j].0@);
                }
                lemma_entry_map(after);
                let wanted = entry_map(before).insert(entry.0@, entry.1);
                assert forall|key: Seq<char>| #[trigger]
                    entry_map(after).contains_key(key) == wanted.contains_key(key) by {
                    if entry_map(after).contains_key(key) {
                        let i = choose|i: int| 0 <= i < after.len() && #[trigger] after[i].0@ == key;
                        assert(before[i].0@ == key);
                    }
                    if entry_map(before).contains_key(key) {
                        let i = choose|i: int|
                            0 <= i < before.len() && #[trigger] before[i].0@ == key;
                        assert(after[i].0@ == key);
                    }
                    assert(after[at as int].0@ == entry.0@);
                }
                assert forall|key: Seq<char>| entry_map(after).contains_key(key) implies #[trigger] entry_map(
                    after,
                )[key] == wanted[key] by {
                    let i = choose|i: int| 0 <= i < after.len() && #[trigger] after[i].0@ == key;
                    assert(before[i].0@ == key);
                    if i == at {
                        assert(after[i] == entry);
                    } else {
                        assert(after[i] == before[i]);
                        assert(before[i].0@ != before[at as int].0@);
                    }
                }
                assert(entry_map(after) =~= wanted);
            }
        } else {
            let ghost entry = (name, value);
            self.entries.push((name, value));
            proof {
                let after = self.entries@;
                assert(after.drop_last() =~= before);
                assert(after.last() == entry);
                assert forall|i: int, j: int| 0 <= i < j < after.len() implies #[trigger] after[i].0@
                    != #[trigger] after[j].0@ by {
                    assert(after[i] == before[i]);
                    if j < before.len() {
                        assert(after[j] == before[j]);
                    }
                }
            }
        }
    }

    /// The entries in the order of their names.
    pub fn into_sorted(self) -> (sorted: Vec<(String, V)>)
        requires
            self.wf(),
        ensures
            names_sorted(sorted@),
            entry_map(sorted@) == self@,
    {
        let ghost all = self.entries@;
        let mut rest: Vec<(String, V)> = self.entries;
        let mut sorted: Vec<(String, V)> = Vec::new();
        assert(sorted@ + rest@ =~= all);
        while rest.len() > 0
            invariant
                names_sorted(sorted@),
                names_distinct(sorted@ + rest@),
                entry_map(sorted@ + rest@) == entry_map(all),
            decreases rest@.len(),
        {
            let ghost listed = sorted@ + rest@;
            let ghost before = sorted@;
            let ghost left = rest@;
            let taken = rest.pop();
            if let Some(entry) = taken {
                let ghost added = entry;
                let at = insertion_point(&sorted, entry.0.as_str());
                sorted.insert(at, entry);
                proof {
                    assert(left.last() == added);
                    assert(rest@ =~= left.drop_last());
                    lemma_insert_sorted(before, rest@, left, added, at as int);
                    assert(sorted@ =~= before.insert(at as int, added));
                }
            }
        }
        assert(sorted@ + rest@ =~= sorted@);
        sorted
    }
}

/// Where a name belongs in a sorted list: after the names that it does not
/// come before.
pub(crate) fn insertion_point<V>(sorted: &Vec<(String, V)>, name: &str) -> (at: usize)
    ensures
        at <= sorted@.len(),
        forall|i: int| 0 <= i < at ==> !text::text_lt(name@, #[trigger] sorted@[i].0@),
        at < sorted@.len() ==> text::text_lt(name@, sorted@[at as int].0@),
{
    let mut at: usize = 0;
    while at < sorted.len()
        invariant
            at <= sorted@.len(),
            forall|i: int| 0 <= i < at ==> !text::text_lt(name@, #[trigger] sorted@[i].0@),
        decreases sorted@.len() - at,
    {
        if comes_before(name, sorted[at].0.as_str()) {
            return at;
        }
        at = at + 1;
    }
    at
}

/// Moving the last unsorted entry to its place keeps the list sorted and what
/// both lists say together.
pub proof fn lemma_insert_sorted<V>(
    sorted: Seq<(String, V)>,
    rest: Seq<(String, V)>,
    left: Seq<(String, V)>,
    added: (String, V),
    at: int,
)
    requires
        names_sorted(sorted),
        left.len() > 0,
        rest == left.drop_last(),
        added == left.last(),
        names_distinct(sorted + left),
        0 <= at <= sorted.len(),
        forall|i: int| 0 <= i < at ==> !text::text_lt(added.0@, #[trigger] sorted[i].0@),
        at < sorted.len() ==> text::text_lt(added.0@, sorted[at].0@),
    ensures
        names_sorted(sorted.insert(at, added)),
        names_distinct(sorted.insert(at, added) + rest),
        entry_map(sorted.insert(at, added) + rest) == entry_map(sorted + left),
{
    let old_all = sorted + left;
    let grown = sorted.insert(at, added);
    let new_all = grown + rest;
    let last = old_all.len() - 1;
    assert(old_all[last] == added);
    let source = |i: int|
        if i < at {
            i
        } else if i == at {
            last
        } else {
            i - 1
        };
    assert forall|i: int| 0 <= i < new_all.len() implies new_all[i] == old_all[#[trigger] source(i)]
        && 0 <= source(i) < old_all.len() by {}
    assert forall|i: int, j: int| 0 <= i < j < new_all.len() implies #[trigger] new_all[i].0@
        != #[trigger] new_all[j].0@ by {
        let x = source(i);
        let y = source(j);
        assert(new_all[i] == old_all[x] && new_all[j] == old_all[y]);
        if x < y {
            assert(old_all[x].0@ != old_all[y].0@);
        } else {
            assert(old_all[y].0@ != old_all[x].0@);
        }
    }
    assert forall|entry: (String, V)| #[trigger] new_all.contains(entry) implies old_all.contains(
        entry,
    ) by {
        let i = choose|i: int| 0 <= i < new_all.len() && new_all[i] == entry;
        assert(old_all[source(i)] == entry);
    }
    assert forall|entry: (String, V)| #[trigger] old_all.contains(entry) implies new_all.contains(
        entry,
    ) by {
        let i = choose|i: int| 0 <= i < old_all.len() && old_all[i] == entry;
        let j = if i == last {
            at
        } else if i < at {
            i
        } else {
            i + 1
        };
        assert(new_all[j] == entry);
    }
    lemma_same_entries(new_all, old_all);
    assert forall|i: int, j: int| 0 <= i < j < grown.len() implies text::text_lt(
        #[trigger] grown[i].0@,
        #[trigger] grown[j].0@,
    ) by {
        if j == at {
            assert(grown[i] == sorted[i]);
            assert(old_all[i] == sorted[i]);
            assert(old_all[i].0@ != old_all[last].0@);
            text::lemma_text_lt_total(sorted[i].0@, added.0@);
        } else if i == at {
            assert(grown[j] == sorted[j - 1]);
            if j - 1 > at {
                assert(text::text_lt(sorted[at].0@, sorted[j - 1].0@));
                text::lemma_text_lt_trans(added.0@, sorted[at].0@, sorted[j - 1].0@);
            }
        } else {
            let x = if i < at { i } else { i - 1 };
            let y = if j < at { j } else { j - 1 };
            assert(grown[i] == sorted[x] && grown[j] == sorted[y]);
        }
    }
}

/// The names of a table, in order.
pub fn sorted_names<V>(table: &NameMap<V>) -> (names: Vec<String>)
    requires
        table.wf(),
    ensures
        strings_sorted(names@),
        forall|name: Seq<char>| #[trigger]
            table@.contains_key(name) <==> lists_name(names@, name),
        table@.dom().finite(),
        names@.len() == table@.dom().len(),
{
    let entries = table.entries();
    let mut numbered: Vec<(String, usize)> = Vec::new();
    let mut i: usize = 0;
    while i < entries.len()
        invariant
            i <= entries@.len(),
            numbered@.len() == i,
            forall|j: int| 0 <= j < i ==> (#[trigger] numbered@[j]).0@ == entries@[j].0@,
        decreases entries@.len() - i,
    {
        numbered.push((entries[i].0.clone(), i));
        i = i + 1;
    }
    proof {
        lemma_entry_map(entries@);
        assert forall|x: int, y: int| 0 <= x < y < numbered@.len() implies #[trigger] numbered@[x].0@
            != #[trigger] numbered@[y].0@ by {
            assert(entries@[x].0@ != entries@[y].0@);
        }
        lemma_entry_map(numbered@);
    }
    let ghost listed = numbered@;
    let sorted = NameMap { entries: numbered }.into_sorted();
    proof {
        lemma_sorted_distinct(sorted@);
        lemma_entry_map(sorted@);
    }
    let mut names: Vec<String> = Vec::new();
    let mut k: usize = 0;
    while k < sorted.len()
        invariant
            k <= sorted@.len(),
            names@.len() == k,
            forall|j: int| 0 <= j < k ==> (#[trigger] names@[j])@ == sorted@[j].0@,
        decreases sorted@.len() - k,
    {
        names.push(sorted[k].0.clone());
        k = k + 1;
    }
    proof {
        assert forall|x: int, y: int| 0 <= x < y < names@.len() implies text::text_lt(
            #[trigger] names@[x]@,
            #[trigger] names@[y]@,
        ) by {
            assert(text::text_lt(sorted@[x].0@, sorted@[y].0@));
        }
        assert forall|name: Seq<char>| #[trigger]
            table@.contains_key(name) <==> lists_name(names@, name) by {
            if table@.contains_key(name) {
                let x = choose|x: int| 0 <= x < entries@.len() && #[trigger] entries@[x].0@ == name;
                assert(listed[x].0@ == name);
                assert(entry_map(sorted@).contains_key(name));
                let y = choose|y: int| 0 <= y < sorted@.len() && #[trigger] sorted@[y].0@ == name;
                assert(names@[y]@ == name);
            }
            if lists_name(names@, name) {
                let y = choose|y: int| 0 <= y < names@.len() && #[trigger] names@[y]@ == name;
                assert(sorted@[y].0@ == name);
                assert(entry_map(listed).contains_key(name));
                let x = choose|x: int| 0 <= x < listed.len() && #[trigger] listed[x].0@ == name;
                assert(entries@[x].0@ == name);
            }
        }
    }
    names
}

/// A table holds a value under the name that it was last put under, and says of
/// every other name what it said before.
pub proof fn law_table_holds_what_was_put<V>(
    table: &mut NameMap<V>,
    name: String,
    value: V,
    outcome: (),
    other: Seq<char>,
)
    requires
        call_ensures(NameMap::<V>::insert, (table, name, value), outcome),
    ensures
        final(table)@.contains_key(name@),
        final(table)@[name@] == value,
        other != name@ ==> final(table)@.contains_key(other) == old(table)@.contains_key(other),
        other != name@ && old(table)@.contains_key(other) ==> final(table)@[other]
            == old(table)@[other],
{
}

/// Asking a table for a name gives the value under it, where there is one.
pub proof fn law_table_gives_what_it_holds<V>(table: &NameMap<V>, name: &str, found: Option<&V>)
    requires
        call_ensures(NameMap::<V>::get, (table, name), found),
    ensures
        found is Some <==> table@.contains_key(name@),
        found is Some ==> *found->Some_0 == table@[name@],
{
}

/// The sorted list of a table names each of its entries once, with its value,
/// each name before the ones that are greater.
pub proof fn law_sorted_list_holds_the_table<V>(table: NameMap<V>, sorted: Vec<(String, V)>, i: int, j: int)
    requires
        call_ensures(NameMap::<V>::into_sorted, (table,), sorted),
        0 <= i < sorted@.len(),
    ensures
        table@.contains_key(sorted@[i].0@),
        table@[sorted@[i].0@] == sorted@[i].1,
        i < j < sorted@.len() ==> text::text_lt(sorted@[i].0@, sorted@[j].0@),
        forall|name: Seq<char>| #[trigger]
            table@.contains_key(name) ==> exists|k: int|
                0 <= k < sorted@.len() && #[trigger] sorted@[k].0@ == name,
{
    lemma_sorted_distinct(sorted@);
    lemma_entry_map(sorted@);
}

/// The sorted names of a table are its names, each before the ones that are
/// greater.
pub proof fn law_sorted_names_are_those_of_the_table<V>(table: &NameMap<V>, names: Vec<String>, i: int, j: int)
    requires
        call_ensures(sorted_names::<V>, (table,), names),
        0 <= i < names@.len(),
    ensures
        table@.contains_key(names@[i]@),
        i < j < names@.len() ==> text::text_lt(names@[i]@, names@[j]@),
        forall|name: Seq<char>| #[trigger]
            table@.contains_key(name) ==> exists|k: int|
                0 <= k < names@.len() && #[trigger] names@[k]@ == name,
{
    assert(lists_name(names@, names@[i]@));
    assert forall|name: Seq<char>| #[trigger] table@.contains_key(name) implies exists|k: int|
        0 <= k < names@.len() && #[trigger] names@[k]@ == name by {
        assert(lists_name(names@, name));
    }
}

} // verus!
