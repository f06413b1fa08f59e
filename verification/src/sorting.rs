//! Lists sorted by name, in which a name may occur more than once.

use crate::names;
use crate::names::insertion_point;
use crate::text;
use vstd::prelude::*;

verus! {

/// The place of the first entry whose name comes after `name`.
pub open spec fn place<V>(entries: Seq<(String, V)>, name: Seq<char>) -> int
    decreases entries.len(),
{
    if entries.len() == 0 {
        0
    } else {
        let earlier = place(entries.drop_last(), name);
        if earlier < entries.len() - 1 || text::text_lt(name, entries.last().0@) {
            earlier
        } else {
            entries.len() as int
        }
    }
}

/// The entries in the order of their names. Entries of the same name keep
/// their order.
pub open spec fn by_name<V>(entries: Seq<(String, V)>) -> Seq<(String, V)>
    decreases entries.len(),
{
    if entries.len() == 0 {
        Seq::empty()
    } else {
        let sorted = by_name(entries.drop_last());
        sorted.insert(place(sorted, entries.last().0@), entries.last())
    }
}

/// The entries of one name, in their order.
pub open spec fn named<V>(entries: Seq<(String, V)>, name: Seq<char>) -> Seq<(String, V)>
    decreases entries.len(),
{
    if entries.len() == 0 {
        Seq::empty()
    } else if entries.last().0@ == name {
        named(entries.drop_last(), name).push(entries.last())
    } else {
        named(entries.drop_last(), name)
    }
}

/// No name comes before an earlier one.
pub open spec fn in_order<V>(entries: Seq<(String, V)>) -> bool {
    forall|i: int, j: int|
        0 <= i < j < entries.len() ==> !text::text_lt(
            #[trigger] entries[j].0@,
            #[trigger] entries[i].0@,
        )
}

/// Where the names before it are not after `name`, and its own is, an entry is
/// the first one after `name`.
proof fn lemma_place<V>(entries: Seq<(String, V)>, name: Seq<char>, at: int)
    requires
        0 <= at <= entries.len(),
        forall|i: int| 0 <= i < at ==> !text::text_lt(name, #[trigger] entries[i].0@),
        at < entries.len() ==> text::text_lt(name, entries[at].0@),
    ensures
        place(entries, name) == at,
    decreases entries.len(),
{
    if entries.len() > 0 {
        let shorter = entries.drop_last();
        if at < entries.len() {
            lemma_place(shorter, name, at);
        } else {
            lemma_place(shorter, name, at - 1);
            assert(!text::text_lt(name, entries[at - 1].0@));
        }
    }
}

/// The names before the place are not after `name`, and the one there is.
proof fn lemma_around_place<V>(entries: Seq<(String, V)>, name: Seq<char>)
    ensures
        0 <= place(entries, name) <= entries.len(),
        forall|i: int|
            0 <= i < place(entries, name) ==> !text::text_lt(name, #[trigger] entries[i].0@),
        place(entries, name) < entries.len() ==> text::text_lt(
            name,
            entries[place(entries, name)].0@,
        ),
    decreases entries.len(),
{
    if entries.len() > 0 {
        let shorter = entries.drop_last();
        lemma_around_place(shorter, name);
        assert forall|i: int| 0 <= i < place(entries, name) implies !text::text_lt(
            name,
            #[trigger] entries[i].0@,
        ) by {
            if i < shorter.len() {
                assert(shorter[i] == entries[i]);
            }
        }
    }
}

/// An entry put in behind all others of its name is the last one of that name.
proof fn lemma_named_insert<V>(
    entries: Seq<(String, V)>,
    at: int,
    entry: (String, V),
    name: Seq<char>,
)
    requires
        0 <= at <= entries.len(),
        forall|i: int| at <= i < entries.len() ==> #[trigger] entries[i].0@ != entry.0@,
    ensures
        named(entries.insert(at, entry), name) == (if entry.0@ == name {
            named(entries, name).push(entry)
        } else {
            named(entries, name)
        }),
    decreases entries.len(),
{
    let grown = entries.insert(at, entry);
    if at == entries.len() {
        assert(grown.drop_last() =~= entries);
    } else {
        let shorter = entries.drop_last();
        assert(grown.drop_last() =~= shorter.insert(at, entry));
        assert(grown.last() == entries.last());
        assert(entries[entries.len() - 1].0@ != entry.0@);
        assert forall|i: int| at <= i < shorter.len() implies #[trigger] shorter[i].0@ != entry.0@ by {
            assert(shorter[i] == entries[i]);
        }
        lemma_named_insert(shorter, at, entry, name);
    }
}

/// Sorting by name puts the names in order, and keeps the entries of each name
/// in theirs.
pub proof fn law_sorting_keeps_every_entry<V>(entries: Seq<(String, V)>)
    ensures
        in_order(by_name(entries)),
        by_name(entries).len() == entries.len(),
        forall|name: Seq<char>| #[trigger] named(by_name(entries), name) == named(entries, name),
    decreases entries.len(),
{
    if entries.len() > 0 {
        let earlier = entries.drop_last();
        let added = entries.last();
        let sorted = by_name(earlier);
        let at = place(sorted, added.0@);
        let grown = sorted.insert(at, added);
        law_sorting_keeps_every_entry(earlier);
        lemma_around_place(sorted, added.0@);
        assert forall|i: int| at <= i < sorted.len() implies text::text_lt(
            added.0@,
            #[trigger] sorted[i].0@,
        ) by {
            if i > at {
                assert(!text::text_lt(sorted[i].0@, sorted[at].0@));
                text::lemma_text_lt_total(sorted[i].0@, sorted[at].0@);
                if text::text_lt(sorted[at].0@, sorted[i].0@) {
                    text::lemma_text_lt_trans(added.0@, sorted[at].0@, sorted[i].0@);
                }
            }
        }
        assert forall|i: int, j: int| 0 <= i < j < grown.len() implies !text::text_lt(
            #[trigger] grown[j].0@,
            #[trigger] grown[i].0@,
        ) by {
            if i == at {
                assert(grown[j] == sorted[j - 1]);
                text::lemma_text_lt_strict(added.0@, sorted[j - 1].0@);
            } else if j == at {
                assert(grown[i] == sorted[i]);
            } else {
                let x = if i < at { i } else { i - 1 };
                let y = if j < at { j } else { j - 1 };
                assert(grown[i] == sorted[x] && grown[j] == sorted[y]);
            }
        }
        assert forall|name: Seq<char>| #[trigger] named(grown, name) == named(entries, name) by {
            assert forall|i: int| at <= i < sorted.len() implies #[trigger] sorted[i].0@ != added.0@ by {
                text::lemma_text_lt_strict(added.0@, sorted[i].0@);
            }
            lemma_named_insert(sorted, at, added, name);
            assert(named(sorted, name) == named(earlier, name));
        }
    }
}

/// With distinct names, sorting gives increasing names that say the same.
proof fn lemma_sorting_distinct_names<V>(entries: Seq<(String, V)>)
    requires
        names::names_distinct(entries),
    ensures
        names::names_sorted(by_name(entries)),
        names::entry_map(by_name(entries)) == names::entry_map(entries),
    decreases entries.len(),
{
    if entries.len() > 0 {
        let earlier = entries.drop_last();
        let added = entries.last();
        let sorted = by_name(earlier);
        let at = place(sorted, added.0@);
        let grown = sorted.insert(at, added);
        let single = seq![added];
        assert forall|i: int, j: int| 0 <= i < j < earlier.len() implies #[trigger] earlier[i].0@
            != #[trigger] earlier[j].0@ by {
            assert(entries[i].0@ != entries[j].0@);
        }
        lemma_sorting_distinct_names(earlier);
        names::lemma_sorted_distinct(sorted);
        names::lemma_entry_map(sorted);
        names::lemma_entry_map(earlier);
        let both = sorted + single;
        assert forall|i: int, j: int| 0 <= i < j < both.len() implies #[trigger] both[i].0@
            != #[trigger] both[j].0@ by {
            assert(both[i] == sorted[i]);
            if j < sorted.len() {
                assert(both[j] == sorted[j]);
                assert(sorted[i].0@ != sorted[j].0@);
            } else {
                assert(both[j] == added);
                assert(names::entry_map(sorted).contains_key(sorted[i].0@));
                let k = choose|k: int|
                    0 <= k < earlier.len() && #[trigger] earlier[k].0@ == sorted[i].0@;
                assert(entries[k].0@ != entries[entries.len() - 1].0@);
            }
        }
        lemma_around_place(sorted, added.0@);
        assert(single.drop_last() =~= Seq::empty());
        names::lemma_insert_sorted(sorted, Seq::empty(), single, added, at);
        assert(grown + Seq::<(String, V)>::empty() =~= grown);
        assert(both.drop_last() =~= sorted);
    }
}

/// A table has one sorted list, whatever the order of its entries.
pub proof fn law_table_has_one_sorted_list<V>(a: Seq<(String, V)>, b: Seq<(String, V)>)
    requires
        names::names_distinct(a),
        names::names_distinct(b),
        names::entry_map(a) == names::entry_map(b),
    ensures
        by_name(a).len() == by_name(b).len(),
        forall|i: int|
            0 <= i < by_name(a).len() ==> #[trigger] by_name(a)[i].0@ == by_name(b)[i].0@ && by_name(
                a,
            )[i].1 == by_name(b)[i].1,
{
    lemma_sorting_distinct_names(a);
    lemma_sorting_distinct_names(b);
    names::law_sorted_listing_is_unique(by_name(a), by_name(b));
}

/// The entries in the order of their names. Entries of the same name keep
/// their order.
pub fn sorted_by_name<V>(entries: Vec<(String, V)>) -> (sorted: Vec<(String, V)>)
    ensures
        sorted@ == by_name(entries@),
{
    let ghost all = entries@;
    let ghost mut done: int = 0;
    let mut rest: Vec<(String, V)> = entries;
    let mut sorted: Vec<(String, V)> = Vec::new();
    assert(all.take(0) =~= Seq::empty());
    while rest.len() > 0
        invariant
            0 <= done <= all.len(),
            rest@ == all.skip(done),
            sorted@ == by_name(all.take(done)),
        decreases rest@.len(),
    {
        let entry = rest.remove(0);
        let ghost added = entry;
        let at = insertion_point(&sorted, entry.0.as_str());
        proof {
            lemma_place(sorted@, entry.0@, at as int);
            assert(all.skip(done)[0] == all[done]);
            let next = all.take(done + 1);
            assert(next.drop_last() =~= all.take(done));
            assert(next.last() == added);
            assert(all.skip(done).remove(0) =~= all.skip(done + 1));
            done = done + 1;
        }
        sorted.insert(at, entry);
    }
    assert(all.take(done) =~= all);
    sorted
}

} // verus!
