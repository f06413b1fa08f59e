//! Counts by name, kept in the order of the names.

use crate::names;
use crate::text;
use crate::text::{comes_before, same_text};
use vstd::prelude::*;

verus! {

/// The sum of what the entries weigh.
pub open spec fn total(entries: Seq<(String, usize)>, weight: spec_fn((String, usize)) -> nat) -> nat
    decreases entries.len(),
{
    if entries.len() == 0 {
        0
    } else {
        total(entries.drop_last(), weight) + weight(entries.last())
    }
}

/// The sum of all counts.
pub open spec fn sum(entries: Seq<(String, usize)>) -> nat {
    total(entries, |entry: (String, usize)| entry.1 as nat)
}

/// The count of one name.
pub open spec fn count_of(entries: Seq<(String, usize)>, name: Seq<char>) -> nat {
    total(
        entries,
        |entry: (String, usize)|
            if entry.0@ == name {
                entry.1 as nat
            } else {
                0
            },
    )
}

/// An entry put in adds its weight.
proof fn lemma_total_insert(
    entries: Seq<(String, usize)>,
    at: int,
    entry: (String, usize),
    weight: spec_fn((String, usize)) -> nat,
)
    requires
        0 <= at <= entries.len(),
    ensures
        total(entries.insert(at, entry), weight) == total(entries, weight) + weight(entry),
    decreases entries.len(),
{
    let grown = entries.insert(at, entry);
    if at == entries.len() {
        assert(grown.drop_last() =~= entries);
        assert(grown.last() == entry);
    } else {
        assert(grown.drop_last() =~= entries.drop_last().insert(at, entry));
        assert(grown.last() == entries.last());
        lemma_total_insert(entries.drop_last(), at, entry, weight);
    }
}

/// An entry replaced exchanges its weight.
proof fn lemma_total_update(
    entries: Seq<(String, usize)>,
    at: int,
    entry: (String, usize),
    weight: spec_fn((String, usize)) -> nat,
)
    requires
        0 <= at < entries.len(),
    ensures
        total(entries.update(at, entry), weight) + weight(entries[at]) == total(entries, weight)
            + weight(entry),
    decreases entries.len(),
{
    let changed = entries.update(at, entry);
    if at == entries.len() - 1 {
        assert(changed.drop_last() =~= entries.drop_last());
        assert(changed.last() == entry);
    } else {
        assert(changed.drop_last() =~= entries.drop_last().update(at, entry));
        assert(changed.last() == entries.last());
        lemma_total_update(entries.drop_last(), at, entry, weight);
    }
}

/// One count is at most the sum.
proof fn lemma_entry_in_sum(entries: Seq<(String, usize)>, at: int)
    requires
        0 <= at < entries.len(),
    ensures
        entries[at].1 <= sum(entries),
    decreases entries.len(),
{
    if at < entries.len() - 1 {
        lemma_entry_in_sum(entries.drop_last(), at);
    }
}

/// Counts by name.
#[derive(Debug)]
pub struct Tally {
    entries: Vec<(String, usize)>,
}

impl View for Tally {
    type V = Seq<(String, usize)>;

    closed spec fn view(&self) -> Seq<(String, usize)> {
        self.entries@
    }
}

impl Tally {
    /// The names increase, so that none occurs twice, and each was counted.
    pub open spec fn wf(self) -> bool {
        &&& names::names_sorted(self@)
        &&& forall|i: int| 0 <= i < self@.len() ==> (#[trigger] self@[i]).1 > 0
    }

    /// No counts.
    pub fn new() -> (tally: Tally)
        ensures
            tally.wf(),
            tally@ == Seq::<(String, usize)>::empty(),
    {
        Tally { entries: Vec::new() }
    }

    /// The counts, in the order of their names.
    pub fn into_entries(self) -> (entries: Vec<(String, usize)>)
        ensures
            entries@ == self@,
    {
        self.entries
    }

    /// Counts a name once more.
    pub fn count(&mut self, name: &str)
        requires
            old(self).wf(),
            sum(old(self)@) < usize::MAX,
        ensures
            final(self).wf(),
            sum(final(self)@) == sum(old(self)@) + 1,
            forall|other: Seq<char>|
                #![trigger count_of(final(self)@, other)]
                count_of(final(self)@, other) == count_of(old(self)@, other) + (if other == name@ {
                    1nat
                } else {
                    0
                }),
    {
        let ghost before = self.entries@;
        let mut at: usize = 0;
        while at < self.entries.len() && comes_before(self.entries[at].0.as_str(), name)
            invariant
                at <= self.entries@.len(),
                self.entries@ == before,
                forall|j: int| 0 <= j < at ==> text::text_lt(#[trigger] before[j].0@, name@),
            decreases self.entries@.len() - at,
        {
            at = at + 1;
        }
        if at < self.entries.len() && same_text(self.entries[at].0.as_str(), name) {
            proof {
                lemma_entry_in_sum(before, at as int);
            }
            let entry: (String, usize) = (name.to_owned(), self.entries[at].1 + 1);
            let ghost added = entry;
            self.entries.set(at, entry);
            proof {
                let after = self.entries@;
                assert(after == before.update(at as int, added));
                lemma_total_update(before, at as int, added, |entry: (String, usize)| entry.1 as nat);
                assert forall|other: Seq<char>|
                    #![trigger count_of(after, other)]
                    count_of(after, other) == count_of(before, other) + (if other == name@ {
                        1nat
                    } else {
                        0
                    }) by {
                    lemma_total_update(
                        before,
                        at as int,
                        added,
                        |entry: (String, usize)|
                            if entry.0@ == other {
                                entry.1 as nat
                            } else {
                                0
                            },
                    );
                }
                assert forall|i: int, j: int| 0 <= i < j < after.len() implies text::text_lt(
                    #[trigger] after[i].0@,
                    #[trigger] after[j].0@,
                ) by {
                    assert(after[i].0@ == before[i].0@);
                    assert(after[j].0@ == before[j].0@);
                }
            }
        } else {
            let entry: (String, usize) = (name.to_owned(), 1);
            let ghost added = entry;
            self.entries.insert(at, entry);
            proof {
                let after = self.entries@;
                assert(after == before.insert(at as int, added));
                lemma_total_insert(before, at as int, added, |entry: (String, usize)| entry.1 as nat);
                assert forall|other: Seq<char>|
                    #![trigger count_of(after, other)]
                    count_of(after, other) == count_of(before, other) + (if other == name@ {
                        1nat
                    } else {
                        0
                    }) by {
                    lemma_total_insert(
                        before,
                        at as int,
                        added,
                        |entry: (String, usize)|
                            if entry.0@ == other {
                                entry.1 as nat
                            } else {
                                0
                            },
                    );
                }
                assert forall|j: int| at <= j < before.len() implies text::text_lt(
                    name@,
                    #[trigger] before[j].0@,
                ) by {
                    text::lemma_text_lt_total(before[at as int].0@, name@);
                    if j > at {
                        text::lemma_text_lt_trans(name@, before[at as int].0@, before[j].0@);
                    }
                }
                assert forall|i: int, j: int| 0 <= i < j < after.len() implies text::text_lt(
                    #[trigger] after[i].0@,
                    #[trigger] after[j].0@,
                ) by {
                    if i < at {
                        assert(after[i] == before[i]);
                    } else if i > at {
                        assert(after[i] == before[i - 1]);
                    }
                    if j < at {
                        assert(after[j] == before[j]);
                    } else if j > at {
                        assert(after[j] == before[j - 1]);
                    }
                }
            }
        }
    }
}

/// The count of a name is what its entry says, and nothing without an entry.
proof fn lemma_count_of_name(entries: Seq<(String, usize)>, name: Seq<char>)
    requires
        names::names_distinct(entries),
    ensures
        count_of(entries, name) == (if names::entry_map(entries).contains_key(name) {
            names::entry_map(entries)[name] as nat
        } else {
            0
        }),
    decreases entries.len(),
{
    if entries.len() > 0 {
        let earlier = entries.drop_last();
        assert forall|i: int, j: int| 0 <= i < j < earlier.len() implies #[trigger] earlier[i].0@
            != #[trigger] earlier[j].0@ by {
            assert(entries[i].0@ != entries[j].0@);
        }
        lemma_count_of_name(earlier, name);
        if entries.last().0@ == name {
            names::lemma_entry_map(earlier);
            if names::entry_map(earlier).contains_key(name) {
                let i = choose|i: int| 0 <= i < earlier.len() && #[trigger] earlier[i].0@ == name;
                assert(entries[i].0@ != entries[entries.len() - 1].0@);
            }
        }
    }
}

/// There is one tally of the same counts: its entries agree one by one.
pub proof fn law_tally_is_unique(a: Seq<(String, usize)>, b: Seq<(String, usize)>)
    requires
        names::names_sorted(a),
        names::names_sorted(b),
        forall|i: int| 0 <= i < a.len() ==> (#[trigger] a[i]).1 > 0,
        forall|i: int| 0 <= i < b.len() ==> (#[trigger] b[i]).1 > 0,
        forall|name: Seq<char>| #[trigger] count_of(a, name) == count_of(b, name),
    ensures
        a.len() == b.len(),
        forall|i: int| 0 <= i < a.len() ==> #[trigger] a[i].0@ == b[i].0@ && a[i].1 == b[i].1,
{
    names::lemma_sorted_distinct(a);
    names::lemma_sorted_distinct(b);
    names::lemma_entry_map(a);
    names::lemma_entry_map(b);
    let left = names::entry_map(a);
    let right = names::entry_map(b);
    assert forall|name: Seq<char>| left.contains_key(name) == right.contains_key(name) && (
    left.contains_key(name) ==> left[name] == right[name]) by {
        lemma_count_of_name(a, name);
        lemma_count_of_name(b, name);
        assert(count_of(a, name) == count_of(b, name));
        if left.contains_key(name) {
            let i = choose|i: int| 0 <= i < a.len() && #[trigger] a[i].0@ == name;
            assert(a[i].1 > 0);
        }
        if right.contains_key(name) {
            let i = choose|i: int| 0 <= i < b.len() && #[trigger] b[i].0@ == name;
            assert(b[i].1 > 0);
        }
    }
    assert(left =~= right);
    names::law_sorted_listing_is_unique(a, b);
}

/// A list in which no name occurs twice counts a name as often as the entry of
/// that name says, and no other name at all.
pub proof fn law_counts_are_those_listed(entries: Seq<(String, usize)>, at: int, name: Seq<char>)
    requires
        names::names_distinct(entries),
    ensures
        0 <= at < entries.len() ==> count_of(entries, entries[at].0@) == entries[at].1,
        (forall|i: int| 0 <= i < entries.len() ==> #[trigger] entries[i].0@ != name) ==> count_of(
            entries,
            name,
        ) == 0,
    decreases entries.len(),
{
    if entries.len() > 0 {
        let rest = entries.drop_last();
        let last = entries.len() - 1;
        assert forall|i: int, j: int| 0 <= i < j < rest.len() implies #[trigger] rest[i].0@
            != #[trigger] rest[j].0@ by {
            assert(rest[i] == entries[i] && rest[j] == entries[j]);
        }
        law_counts_are_those_listed(rest, at, name);
        law_counts_are_those_listed(rest, at, entries[last].0@);
        assert forall|i: int| 0 <= i < rest.len() implies #[trigger] rest[i].0@ != entries[last].0@ by {
            assert(rest[i] == entries[i]);
            assert(entries[i].0@ != entries[last].0@);
        }
        if forall|i: int| 0 <= i < entries.len() ==> #[trigger] entries[i].0@ != name {
            assert forall|i: int| 0 <= i < rest.len() implies #[trigger] rest[i].0@ != name by {
                assert(rest[i] == entries[i]);
            }
            assert(entries[last].0@ != name);
        }
        if 0 <= at < last {
            assert(rest[at] == entries[at]);
            assert(entries[at].0@ != entries[last].0@);
        }
    }
}

/// Counting a name raises its count by one, and no other.
pub proof fn law_counting_raises_one_count(
    tally: &mut Tally,
    name: &str,
    outcome: (),
    other: Seq<char>,
)
    requires
        call_ensures(Tally::count, (tally, name), outcome),
    ensures
        count_of(final(tally)@, name@) == count_of(old(tally)@, name@) + 1,
        other != name@ ==> count_of(final(tally)@, other) == count_of(old(tally)@, other),
        final(tally).wf(),
{
}

} // verus!
