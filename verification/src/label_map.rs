//! A map from task labels to values.

use crate::label::TaskLabel;
use vstd::prelude::*;

verus! {

/// A map from task labels to values, in which no label occurs twice.
pub struct LabelMap<V> {
    entries: Vec<(TaskLabel, V)>,
}

/// Whether `entries` holds `label` at position `i`.
spec fn holds_at<V>(entries: Seq<(TaskLabel, V)>, label: Seq<char>, i: int) -> bool {
    0 <= i < entries.len() && entries[i].0@ == label
}

/// Whether no label occurs twice in `entries`.
spec fn distinct<V>(entries: Seq<(TaskLabel, V)>) -> bool {
    forall|i: int, j: int|
        0 <= i < j < entries.len() ==> (#[trigger] entries[i]).0@ != (#[trigger] entries[j]).0@
}

/// The map that `entries` list.
spec fn listed<V>(entries: Seq<(TaskLabel, V)>) -> Map<Seq<char>, V> {
    Map::new(
        |label: Seq<char>| exists|i: int| holds_at(entries, label, i),
        |label: Seq<char>| entries[choose|i: int| holds_at(entries, label, i)].1,
    )
}

/// A label that stands at position `i` of distinct entries is mapped to the value there.
proof fn lemma_listed<V>(entries: Seq<(TaskLabel, V)>, i: int)
    requires
        distinct(entries),
        0 <= i < entries.len(),
    ensures
        listed(entries).contains_key(entries[i].0@),
        listed(entries)[entries[i].0@] == entries[i].1,
{
    let label = entries[i].0@;
    assert(holds_at(entries, label, i));
    let j = choose|j: int| holds_at(entries, label, j);
    assert(holds_at(entries, label, j));
    if i < j {
        assert(entries[i].0@ != entries[j].0@);
    } else if j < i {
        assert(entries[j].0@ != entries[i].0@);
    }
}

/// Appending an entry with a new label adds that label to the map.
proof fn lemma_listed_push<V>(entries: Seq<(TaskLabel, V)>, entry: (TaskLabel, V))
    requires
        distinct(entries),
        forall|i: int| 0 <= i < entries.len() ==> (#[trigger] entries[i]).0@ != entry.0@,
    ensures
        distinct(entries.push(entry)),
        listed(entries.push(entry)) == listed(entries).insert(entry.0@, entry.1),
        !listed(entries).contains_key(entry.0@),
{
    let longer = entries.push(entry);
    assert forall|label: Seq<char>| listed(longer).contains_key(label) <==> listed(entries).insert(
        entry.0@,
        entry.1,
    ).contains_key(label) by {
        if listed(longer).contains_key(label) {
            let i = choose|i: int| holds_at(longer, label, i);
            if i < entries.len() {
                assert(holds_at(entries, label, i));
            }
        }
        if listed(entries).contains_key(label) {
            let i = choose|i: int| holds_at(entries, label, i);
            assert(holds_at(longer, label, i));
        }
        if label == entry.0@ {
            assert(holds_at(longer, label, entries.len() as int));
        }
    }
    assert forall|label: Seq<char>| listed(longer).contains_key(label) implies listed(
        longer,
    )[label] == listed(entries).insert(entry.0@, entry.1)[label] by {
        let i = choose|i: int| holds_at(longer, label, i);
        lemma_listed(longer, i);
        if i < entries.len() {
            lemma_listed(entries, i);
        }
    }
    assert(listed(longer) =~= listed(entries).insert(entry.0@, entry.1));
}

/// Replacing the entry at a label by one with the same label changes the value of that label
/// alone.
proof fn lemma_listed_update<V>(entries: Seq<(TaskLabel, V)>, at: int, entry: (TaskLabel, V))
    requires
        distinct(entries),
        0 <= at < entries.len(),
        entries[at].0@ == entry.0@,
    ensures
        distinct(entries.update(at, entry)),
        listed(entries.update(at, entry)) == listed(entries).insert(entry.0@, entry.1),
{
    let changed = entries.update(at, entry);
    assert forall|i: int| 0 <= i < entries.len() implies (#[trigger] changed[i]).0@
        == entries[i].0@ by {}
    assert(distinct(changed)) by {
        assert forall|i: int, j: int| 0 <= i < j < changed.len() implies (
        #[trigger] changed[i]).0@ != (#[trigger] changed[j]).0@ by {
            assert(entries[i].0@ != entries[j].0@);
        }
    }
    assert forall|label: Seq<char>| listed(changed).contains_key(label) <==> listed(entries).insert(
        entry.0@,
        entry.1,
    ).contains_key(label) by {
        if listed(changed).contains_key(label) {
            let i = choose|i: int| holds_at(changed, label, i);
            assert(holds_at(entries, label, i));
        }
        if listed(entries).contains_key(label) {
            let i = choose|i: int| holds_at(entries, label, i);
            assert(holds_at(changed, label, i));
        }
        if label == entry.0@ {
            assert(holds_at(changed, label, at));
        }
    }
    assert forall|label: Seq<char>| listed(changed).contains_key(label) implies listed(
        changed,
    )[label] == listed(entries).insert(entry.0@, entry.1)[label] by {
        let i = choose|i: int| holds_at(changed, label, i);
        lemma_listed(changed, i);
        lemma_listed(entries, i);
        if i != at {
            if i < at {
                assert(entries[i].0@ != entries[at].0@);
            } else {
                assert(entries[at].0@ != entries[i].0@);
            }
        }
    }
    assert(listed(changed) =~= listed(entries).insert(entry.0@, entry.1));
}

/// Whether `label` is among those looked at, when `selected` is the only one or, without it, all
/// are.
pub open spec fn is_selected(label: Seq<char>, selected: Option<Seq<char>>) -> bool {
    match selected {
        Some(only) => label == only,
        None => true,
    }
}

/// Whether `entries` hold each label of `map` that is looked at.
pub open spec fn all_selected<V>(
    map: Map<Seq<char>, V>,
    selected: Option<Seq<char>>,
    entries: Seq<(&TaskLabel, &V)>,
) -> bool {
    forall|label: Seq<char>| #[trigger]
        map.contains_key(label) && is_selected(label, selected) ==> exists|i: int|
            0 <= i < entries.len() && (#[trigger] entries[i]).0@ == label
}

/// What an optional label stands for.
pub open spec fn label_view(label: Option<&TaskLabel>) -> Option<Seq<char>> {
    match label {
        Some(label) => Some(label@),
        None => None,
    }
}

impl<V> View for LabelMap<V> {
    type V = Map<Seq<char>, V>;

    closed spec fn view(&self) -> Map<Seq<char>, V> {
        listed(self.entries@)
    }
}

impl<V> LabelMap<V> {
    #[verifier::type_invariant]
    spec fn no_label_twice(self) -> bool {
        distinct(self.entries@)
    }

    /// The position of `label`, where it occurs.
    fn position(entries: &Vec<(TaskLabel, V)>, label: &TaskLabel) -> (at: Option<usize>)
        ensures
            at matches Some(i) ==> holds_at(entries@, label@, i as int),
            at is None ==> forall|i: int|
                0 <= i < entries@.len() ==> (#[trigger] entries@[i]).0@ != label@,
    {
        let mut i: usize = 0;
        while i < entries.len()
            invariant
                i <= entries@.len(),
                forall|j: int| 0 <= j < i ==> (#[trigger] entries@[j]).0@ != label@,
            decreases entries@.len() - i,
        {
            if entries[i].0.is_named(label) {
                return Some(i);
            }
            i = i + 1;
        }
        None
    }

    /// The empty map.
    pub fn new() -> (map: Self)
        ensures
            map@ == Map::<Seq<char>, V>::empty(),
    {
        let map = LabelMap { entries: Vec::new() };
        proof {
            assert forall|label: Seq<char>| !map@.contains_key(label) by {
                if map@.contains_key(label) {
                    let i = choose|i: int| holds_at(map.entries@, label, i);
                }
            }
            assert(map@ =~= Map::<Seq<char>, V>::empty());
        }
        map
    }

    /// Maps `label` to `value`, and gives back the value that it was mapped to before.
    pub fn insert(&mut self, label: TaskLabel, value: V) -> (replaced: Option<V>)
        ensures
            final(self)@ == old(self)@.insert(label@, value),
            replaced is Some <==> old(self)@.contains_key(label@),
            replaced matches Some(v) ==> v == old(self)@[label@],
    {
        proof {
            use_type_invariant(&*self);
        }
        let mut entries: Vec<(TaskLabel, V)> = Vec::new();
        std::mem::swap(&mut entries, &mut self.entries);
        let ghost before = entries@;
        match Self::position(&entries, &label) {
            Some(i) => {
                let ghost entry = (label, value);
                entries.push((label, value));
                let replaced = entries.swap_remove(i);
                proof {
                    assert(entries@ =~= before.update(i as int, entry));
                    lemma_listed(before, i as int);
                    lemma_listed_update(before, i as int, entry);
                }
                self.entries = entries;
                Some(replaced.1)
            },
            None => {
                proof {
                    lemma_listed_push(before, (label, value));
                }
                entries.push((label, value));
                self.entries = entries;
                None
            },
        }
    }

    /// The value that `label` is mapped to.
    pub fn get(&self, label: &TaskLabel) -> (value: Option<&V>)
        ensures
            value is Some <==> self@.contains_key(label@),
            value matches Some(v) ==> *v == self@[label@],
    {
        proof {
            use_type_invariant(self);
        }
        match Self::position(&self.entries, label) {
            Some(i) => {
                proof {
                    lemma_listed(self.entries@, i as int);
                }
                Some(&self.entries[i].1)
            },
            None => {
                proof {
                    if self@.contains_key(label@) {
                        let i = choose|i: int| holds_at(self.entries@, label@, i);
                        assert(self.entries@[i].0@ == label@);
                    }
                }
                None
            },
        }
    }

    /// The entries of the map, in any order.
    pub fn into_entries(self) -> (entries: Vec<(TaskLabel, V)>)
        ensures
            forall|i: int, j: int|
                0 <= i < j < entries@.len() ==> (#[trigger] entries@[i]).0@ != (
                #[trigger] entries@[j]).0@,
            forall|i: int|
                0 <= i < entries@.len() ==> self@.contains_key((#[trigger] entries@[i]).0@)
                    && self@[entries@[i].0@] == entries@[i].1,
            forall|label: Seq<char>| #[trigger]
                self@.contains_key(label) ==> exists|i: int|
                    0 <= i < entries@.len() && (#[trigger] entries@[i]).0@ == label,
    {
        proof {
            use_type_invariant(&self);
            assert forall|i: int| 0 <= i < self.entries@.len() implies self@.contains_key(
                (#[trigger] self.entries@[i]).0@,
            ) && self@[self.entries@[i].0@] == self.entries@[i].1 by {
                lemma_listed(self.entries@, i);
            }
            assert forall|label: Seq<char>| #[trigger] self@.contains_key(label) implies exists|
                i: int,
            |
                0 <= i < self.entries@.len() && (#[trigger] self.entries@[i]).0@ == label by {
                let i = choose|i: int| holds_at(self.entries@, label, i);
                assert(self.entries@[i].0@ == label);
            }
        }
        self.entries
    }

    /// The entries whose label is looked at: the one with the label `selected` or, without it,
    /// all, in any order.
    pub fn selected(&self, selected: Option<&TaskLabel>) -> (entries: Vec<(&TaskLabel, &V)>)
        ensures
            forall|i: int, j: int|
                0 <= i < j < entries@.len() ==> (#[trigger] entries@[i]).0@ != (
                #[trigger] entries@[j]).0@,
            forall|i: int|
                0 <= i < entries@.len() ==> {
                    &&& self@.contains_key((#[trigger] entries@[i]).0@)
                    &&& self@[entries@[i].0@] == *entries@[i].1
                    &&& is_selected(entries@[i].0@, label_view(selected))
                },
            all_selected(self@, label_view(selected), entries@),
    {
        proof {
            use_type_invariant(self);
        }
        let ghost all = self.entries@;
        let mut entries: Vec<(&TaskLabel, &V)> = Vec::new();
        let mut n: usize = 0;
        while n < self.entries.len()
            invariant
                all == self.entries@,
                distinct(all),
                n <= all.len(),
                self@ == listed(all),
                forall|i: int, j: int|
                    0 <= i < j < entries@.len() ==> (#[trigger] entries@[i]).0@ != (
                    #[trigger] entries@[j]).0@,
                forall|i: int|
                    0 <= i < entries@.len() ==> {
                        &&& is_selected((#[trigger] entries@[i]).0@, label_view(selected))
                        &&& exists|k: int|
                            0 <= k < n && (#[trigger] all[k]).0 == *entries@[i].0 && all[k].1
                                == *entries@[i].1
                    },
                forall|k: int|
                    0 <= k < n && is_selected((#[trigger] all[k]).0@, label_view(selected))
                        ==> exists|i: int|
                        0 <= i < entries@.len() && (#[trigger] entries@[i]).0@ == all[k].0@,
            decreases all.len() - n,
        {
            let entry = &self.entries[n];
            let wanted = match selected {
                Some(label) => entry.0.is_named(label),
                None => true,
            };
            if wanted {
                let ghost before = entries@;
                entries.push((&entry.0, &entry.1));
                proof {
                    assert(entries@ == before.push((&entry.0, &entry.1)));
                    assert forall|k: int|
                        0 <= k < n + 1 && is_selected(
                            (#[trigger] all[k]).0@,
                            label_view(selected),
                        ) implies exists|i: int|
                        0 <= i < entries@.len() && (#[trigger] entries@[i]).0@ == all[k].0@ by {
                        if k < n {
                            let i = choose|i: int|
                                0 <= i < before.len() && (#[trigger] before[i]).0@ == all[k].0@;
                            assert(entries@[i].0@ == all[k].0@);
                        } else {
                            assert(entries@[before.len() as int].0@ == all[k].0@);
                        }
                    }
                    assert forall|i: int, j: int| 0 <= i < j < entries@.len() implies (
                    #[trigger] entries@[i]).0@ != (#[trigger] entries@[j]).0@ by {
                        if j == before.len() {
                            assert(entries@[i] == before[i]);
                            let k = choose|k: int|
                                0 <= k < n && (#[trigger] all[k]).0 == *before[i].0 && all[k].1
                                    == *before[i].1;
                            assert(all[k].0@ != all[n as int].0@);
                        } else {
                            assert(before[i].0@ != before[j].0@);
                        }
                    }
                    assert forall|i: int| 0 <= i < entries@.len() implies {
                        &&& is_selected((#[trigger] entries@[i]).0@, label_view(selected))
                        &&& exists|k: int|
                            0 <= k < n + 1 && (#[trigger] all[k]).0 == *entries@[i].0 && all[k].1
                                == *entries@[i].1
                    } by {
                        if i < before.len() {
                            assert(entries@[i] == before[i]);
                            let k = choose|k: int|
                                0 <= k < n && (#[trigger] all[k]).0 == *before[i].0 && all[k].1
                                    == *before[i].1;
                            assert(all[k].0 == *entries@[i].0);
                        } else {
                            assert(all[n as int].0 == *entries@[i].0);
                        }
                    }
                }
            }
            n = n + 1;
        }
        proof {
            assert forall|i: int| 0 <= i < entries@.len() implies self@.contains_key(
                (#[trigger] entries@[i]).0@,
            ) && self@[entries@[i].0@] == *entries@[i].1 by {
                let k = choose|k: int|
                    0 <= k < n && (#[trigger] all[k]).0 == *entries@[i].0 && all[k].1
                        == *entries@[i].1;
                lemma_listed(all, k);
            }
            assert forall|label: Seq<char>| #[trigger]
                self@.contains_key(label) && is_selected(
                    label,
                    label_view(selected),
                ) implies exists|i: int|
                0 <= i < entries@.len() && (#[trigger] entries@[i]).0@ == label by {
                let k = choose|k: int| holds_at(all, label, k);
                assert(all[k].0@ == label);
            }
        }
        entries
    }
}

} // verus!
