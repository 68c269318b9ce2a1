//! A map keyed by origin.

use vstd::prelude::*;

use crate::dom_url::{ImmutableOrigin, OriginView};

verus! {

/// The map that a sequence of entries stands for: each entry maps the origin
/// of its key to its value.
pub open spec fn entries_map<V>(entries: Seq<(ImmutableOrigin, V)>) -> Map<OriginView, V>
    decreases entries.len(),
{
    if entries.len() == 0 {
        Map::empty()
    } else {
        entries_map(entries.drop_last()).insert(entries.last().0@, entries.last().1)
    }
}

/// Whether no two entries have the same origin as their key.
pub open spec fn distinct_keys<V>(entries: Seq<(ImmutableOrigin, V)>) -> bool {
    forall|i: int, j: int|
        0 <= i < entries.len() && 0 <= j < entries.len() && i != j ==> (#[trigger] entries[i]).0@
            != (#[trigger] entries[j]).0@
}

/// The keys of the map are the keys of the entries, and where no two entries
/// have the same key, each entry's key is mapped to its value.
pub proof fn lemma_entries_map<V>(entries: Seq<(ImmutableOrigin, V)>)
    ensures
        forall|k: OriginView|
            entries_map(entries).contains_key(k) <==> exists|i: int|
                0 <= i < entries.len() && (#[trigger] entries[i]).0@ == k,
        distinct_keys(entries) ==> forall|i: int|
            0 <= i < entries.len() ==> entries_map(entries)[(#[trigger] entries[i]).0@]
                == entries[i].1,
        entries_map(entries).dom().finite(),
        distinct_keys(entries) ==> entries_map(entries).dom().len() == entries.len(),
    decreases entries.len(),
{
    if entries.len() > 0 {
        let rest = entries.drop_last();
        lemma_entries_map(rest);
        let last = entries.last();
        assert forall|k: OriginView|
            entries_map(entries).contains_key(k) <==> exists|i: int|
                0 <= i < entries.len() && (#[trigger] entries[i]).0@ == k by {
            if entries_map(entries).contains_key(k) {
                if k == last.0@ {
                    assert(entries[entries.len() - 1].0@ == k);
                } else {
                    let i = choose|i: int| 0 <= i < rest.len() && (#[trigger] rest[i]).0@ == k;
                    assert(entries[i].0@ == k);
                }
            }
            if exists|i: int| 0 <= i < entries.len() && (#[trigger] entries[i]).0@ == k {
                let i = choose|i: int| 0 <= i < entries.len() && (#[trigger] entries[i]).0@ == k;
                if i < rest.len() {
                    assert(rest[i].0@ == k);
                }
            }
        }
        if distinct_keys(entries) {
            assert(distinct_keys(rest)) by {
                assert forall|i: int, j: int|
                    0 <= i < rest.len() && 0 <= j < rest.len() && i != j implies (
                #[trigger] rest[i]).0@ != (#[trigger] rest[j]).0@ by {
                    assert(rest[i] == entries[i]);
                    assert(rest[j] == entries[j]);
                }
            }
            assert forall|i: int| 0 <= i < entries.len() implies entries_map(entries)[(
            #[trigger] entries[i]).0@] == entries[i].1 by {
                if i < rest.len() {
                    assert(rest[i] == entries[i]);
                    assert(entries[i].0@ != entries[entries.len() - 1].0@);
                }
            }
            assert(!entries_map(rest).contains_key(last.0@)) by {
                if entries_map(rest).contains_key(last.0@) {
                    let i = choose|i: int|
                        0 <= i < rest.len() && (#[trigger] rest[i]).0@ == last.0@;
                    assert(entries[i].0@ == entries[entries.len() - 1].0@);
                }
            }
        }
    }
}

/// Where no two entries have the same key, putting an entry in the place of
/// one with the same key maps that key to the new value, and changes nothing
/// else.
pub proof fn lemma_replaced_entry<V>(
    entries: Seq<(ImmutableOrigin, V)>,
    place: int,
    entry: (ImmutableOrigin, V),
)
    requires
        distinct_keys(entries),
        0 <= place < entries.len(),
        entries[place].0@ == entry.0@,
    ensures
        distinct_keys(entries.update(place, entry)),
        entries_map(entries.update(place, entry)) == entries_map(entries).insert(
            entry.0@,
            entry.1,
        ),
{
    let after = entries.update(place, entry);
    assert forall|i: int| 0 <= i < entries.len() implies (#[trigger] after[i]).0@
        == entries[i].0@ by {}
    assert forall|i: int, j: int|
        0 <= i < after.len() && 0 <= j < after.len() && i != j implies (#[trigger] after[i]).0@
        != (#[trigger] after[j]).0@ by {
        assert(entries[i].0@ != entries[j].0@);
    }
    lemma_entries_map(entries);
    lemma_entries_map(after);
    let m = entries_map(entries).insert(entry.0@, entry.1);
    assert forall|k: OriginView| entries_map(after).contains_key(k) <==> m.contains_key(k) by {
        if entries_map(after).contains_key(k) {
            let i = choose|i: int| 0 <= i < after.len() && (#[trigger] after[i]).0@ == k;
            assert(entries[i].0@ == k);
        }
        if m.contains_key(k) {
            if k == entry.0@ {
                assert(after[place].0@ == k);
            } else {
                let i = choose|i: int| 0 <= i < entries.len() && (#[trigger] entries[i]).0@ == k;
                assert(after[i].0@ == k);
            }
        }
    }
    assert forall|k: OriginView| entries_map(after).contains_key(k) implies entries_map(after)[k]
        == m[k] by {
        let i = choose|i: int| 0 <= i < after.len() && (#[trigger] after[i]).0@ == k;
        assert(entries_map(after)[after[i].0@] == after[i].1);
        if i != place {
            assert(entries[i].0@ != entries[place].0@);
            assert(entries_map(entries)[entries[i].0@] == entries[i].1);
        }
    }
    assert(entries_map(after) =~= m);
}

/// A map from origins to values. It holds its entries in the order in which
/// they came, and no two of them have the same origin as their key.
#[derive(Debug)]
pub struct OriginMap<V> {
    entries: Vec<(ImmutableOrigin, V)>,
}

impl<V> View for OriginMap<V> {
    type V = Map<OriginView, V>;

    closed spec fn view(&self) -> Map<OriginView, V> {
        entries_map(self.entries@)
    }
}

impl<V> OriginMap<V> {
    /// No two entries have the same key.
    pub closed spec fn wf(&self) -> bool {
        distinct_keys(self.entries@)
    }

    /// A map without entries.
    pub fn new() -> (map: Self)
        ensures
            map.wf(),
            map@ == Map::<OriginView, V>::empty(),
    {
        OriginMap { entries: Vec::new() }
    }

    /// The number of entries.
    pub fn len(&self) -> (len: usize)
        requires
            self.wf(),
        ensures
            self@.dom().finite(),
            len == self@.dom().len(),
    {
        proof {
            lemma_entries_map(self.entries@);
        }
        self.entries.len()
    }

    /// The place of the entry with the key `key`, if there is one.
    fn find(&self, key: &ImmutableOrigin) -> (place: Option<usize>)
        requires
            self.wf(),
        ensures
            match place {
                Some(i) => i < self.entries@.len() && self.entries@[i as int].0@ == key@
                    && self@.contains_key(key@) && self@[key@] == self.entries@[i as int].1,
                None => !self@.contains_key(key@),
            },
    {
        let mut i: usize = 0;
        while i < self.entries.len()
            invariant
                self.wf(),
                i <= self.entries@.len(),
                forall|j: int| 0 <= j < i ==> (#[trigger] self.entries@[j]).0@ != key@,
            decreases self.entries@.len() - i,
        {
            if self.entries[i].0.same(key) {
                proof {
                    lemma_entries_map(self.entries@);
                    assert(self.entries@[i as int].0@ == key@);
                }
                return Some(i);
            }
            i = i + 1;
        }
        proof {
            lemma_entries_map(self.entries@);
        }
        None
    }

    /// Whether the map has an entry for `key`.
    pub fn contains_key(&self, key: &ImmutableOrigin) -> (b: bool)
        requires
            self.wf(),
        ensures
            b == self@.contains_key(key@),
    {
        self.find(key).is_some()
    }

    /// The value that `key` is mapped to, if it is mapped.
    pub fn get(&self, key: &ImmutableOrigin) -> (value: Option<&V>)
        requires
            self.wf(),
        ensures
            match value {
                Some(v) => self@.contains_key(key@) && self@[key@] == *v,
                None => !self@.contains_key(key@),
            },
    {
        match self.find(key) {
            Some(i) => Some(&self.entries[i].1),
            None => None,
        }
    }

    /// Maps `key` to `value`, in place of the value that it was mapped to, if
    /// it was mapped. That value is returned.
    pub fn insert(&mut self, key: ImmutableOrigin, value: V) -> (previous: Option<V>)
        requires
            old(self).wf(),
        ensures
            final(self).wf(),
            final(self)@ == old(self)@.insert(key@, value),
            match previous {
                Some(v) => old(self)@.contains_key(key@) && old(self)@[key@] == v,
                None => !old(self)@.contains_key(key@),
            },
    {
        let place = self.find(&key);
        let ghost before = self.entries@;
        let ghost entry = (key, value);
        self.entries.push((key, value));
        match place {
            Some(i) => {
                let replaced = self.entries.swap_remove(i);
                proof {
                    let after = self.entries@;
                    assert(after =~= before.update(i as int, entry));
                    lemma_replaced_entry(before, i as int, entry);
                }
                Some(replaced.1)
            },
            None => {
                proof {
                    lemma_entries_map(before);
                    assert(self.entries@.drop_last() == before);
                    assert forall|i: int, j: int|
                        0 <= i < self.entries@.len() && 0 <= j < self.entries@.len() && i
                            != j implies (#[trigger] self.entries@[i]).0@ != (
                    #[trigger] self.entries@[j]).0@ by {
                        if i < before.len() {
                            assert(before[i] == self.entries@[i]);
                        }
                        if j < before.len() {
                            assert(before[j] == self.entries@[j]);
                        }
                    }
                }
                None
            },
        }
    }
}

} // verus!
