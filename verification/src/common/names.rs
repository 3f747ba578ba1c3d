//! An insertion-ordered map keyed by name.

use vstd::prelude::*;

use crate::common::text::same_text;

verus! {

/// Entries keyed by distinct names, kept in the order of first insertion.
pub struct NameMap<V> {
    entries: Vec<(String, V)>,
}

spec fn holds<V>(entries: Seq<(String, V)>, name: Seq<char>, i: int) -> bool {
    0 <= i < entries.len() && entries[i].0@ == name
}

spec fn distinct<V>(entries: Seq<(String, V)>) -> bool {
    forall|i: int, j: int|
        0 <= i < entries.len() && 0 <= j < entries.len() && entries[i].0@ == entries[j].0@ ==> i
            == j
}

spec fn contents<V>(entries: Seq<(String, V)>) -> Map<Seq<char>, V> {
    Map::new(
        |name: Seq<char>| exists|i: int| holds(entries, name, i),
        |name: Seq<char>| entries[choose|i: int| holds(entries, name, i)].1,
    )
}

impl<V> View for NameMap<V> {
    type V = Map<Seq<char>, V>;

    closed spec fn view(&self) -> Map<Seq<char>, V> {
        contents(self.entries@)
    }
}

impl<V> NameMap<V> {
    #[verifier::type_invariant]
    spec fn names_are_distinct(self) -> bool {
        distinct(self.entries@)
    }

    /// The names in the order of first insertion.
    pub closed spec fn names(&self) -> Seq<Seq<char>> {
        Seq::new(self.entries@.len(), |i: int| self.entries@[i].0@)
    }

    /// An empty map.
    pub fn new() -> (map: NameMap<V>)
        ensures
            map@ == Map::<Seq<char>, V>::empty(),
            map.names() == Seq::<Seq<char>>::empty(),
    {
        let map = NameMap { entries: Vec::new() };
        assert(map@ =~= Map::<Seq<char>, V>::empty());
        map
    }

    fn find(&self, name: &str) -> (found: Option<usize>)
        ensures
            match found {
                Some(i) => holds(self.entries@, name@, i as int),
                None => !self@.contains_key(name@),
            },
    {
        let mut i: usize = 0;
        while i < self.entries.len()
            invariant
                i <= self.entries@.len(),
                forall|k: int| 0 <= k < i ==> (#[trigger] self.entries@[k]).0@ != name@,
            decreases self.entries@.len() - i,
        {
            if same_text(self.entries[i].0.as_str(), name) {
                return Some(i);
            }
            i += 1;
        }
        assert forall|k: int| !holds(self.entries@, name@, k) by {}
        None
    }

    /// The value stored under `name`.
    pub fn get(&self, name: &str) -> (value: Option<&V>)
        ensures
            match value {
                Some(value) => self@.contains_key(name@) && *value == self@[name@],
                None => !self@.contains_key(name@),
            },
    {
        proof {
            use_type_invariant(self);
        }
        match self.find(name) {
            Some(i) => Some(&self.entries[i].1),
            None => None,
        }
    }

    /// Whether a value is stored under `name`.
    pub fn contains_key(&self, name: &str) -> (present: bool)
        ensures
            present == self@.contains_key(name@),
    {
        self.get(name).is_some()
    }

    /// Stores `value` under `name`, replacing what was there.
    pub fn insert(&mut self, name: String, value: V)
        ensures
            final(self)@ == old(self)@.insert(name@, value),
            final(self).names() == (if old(self)@.contains_key(name@) {
                old(self).names()
            } else {
                old(self).names().push(name@)
            }),
    {
        proof {
            use_type_invariant(&*self);
        }
        let ghost before = self.entries@;
        let found: Option<usize> = self.find(name.as_str());
        let mut entries: Vec<(String, V)> = Vec::new();
        std::mem::swap(&mut entries, &mut self.entries);
        let ghost key = name@;
        match found {
            Some(i) => {
                entries[i] = (name, value);
                proof {
                    assert(holds(before, key, i as int));
                    assert(entries@ == before.update(i as int, (name, value)));
                }
            },
            None => {
                entries.push((name, value));
                proof {
                    assert forall|k: int| !holds(before, key, k) by {}
                    assert(holds(entries@, key, before.len() as int));
                }
            },
        }
        proof {
            let after = entries@;
            assert forall|i: int, j: int|
                0 <= i < after.len() && 0 <= j < after.len() && after[i].0@
                    == after[j].0@ implies i == j by {
                assert(i < before.len() ==> holds(before, after[i].0@, i));
                assert(j < before.len() ==> holds(before, after[j].0@, j));
            }
            assert forall|k: Seq<char>| contents(after).contains_key(k) == contents(before).insert(
                key,
                value,
            ).contains_key(k) by {
                if exists|i: int| holds(before, k, i) {
                    let i = choose|i: int| holds(before, k, i);
                    assert(holds(after, k, i));
                }
                if exists|i: int| holds(after, k, i) {
                    let i = choose|i: int| holds(after, k, i);
                    if k != key {
                        assert(holds(before, k, i));
                    }
                }
                if k == key {
                    match found {
                        Some(i) => assert(holds(after, key, i as int)),
                        None => {},
                    }
                }
            }
            assert forall|k: Seq<char>| #[trigger] contents(after).contains_key(k) implies contents(
                after,
            )[k] == contents(before).insert(key, value)[k] by {
                let i = choose|i: int| holds(after, k, i);
                assert(holds(after, k, i));
                if k != key {
                    assert(holds(before, k, i));
                    let j = choose|j: int| holds(before, k, j);
                    assert(holds(before, k, j));
                }
            }
            assert(contents(after) =~= contents(before).insert(key, value));
        }
        self.entries = entries;
        assert(self.names() =~= (if old(self)@.contains_key(key) {
            old(self).names()
        } else {
            old(self).names().push(key)
        }));
    }

    /// Number of entries.
    pub fn len(&self) -> (len: usize)
        ensures
            len == self.names().len(),
            self.names().no_duplicates(),
            forall|name: Seq<char>| #[trigger]
                self@.contains_key(name) <==> self.names().contains(name),
    {
        proof {
            use_type_invariant(self);
            assert forall|name: Seq<char>| #[trigger]
                self@.contains_key(name) <==> self.names().contains(name) by {
                if self@.contains_key(name) {
                    let i = choose|i: int| holds(self.entries@, name, i);
                    assert(self.names()[i] == name);
                }
                if self.names().contains(name) {
                    let i = choose|i: int| 0 <= i < self.names().len() && self.names()[i] == name;
                    assert(holds(self.entries@, name, i));
                }
            }
        }
        self.entries.len()
    }

    /// The entry at `index`, in the order of first insertion.
    pub fn entry(&self, index: usize) -> (entry: (&str, &V))
        requires
            index < self.names().len(),
        ensures
            entry.0@ == self.names()[index as int],
            self@.contains_key(entry.0@),
            *entry.1 == self@[entry.0@],
    {
        proof {
            use_type_invariant(self);
            assert(holds(self.entries@, self.entries@[index as int].0@, index as int));
        }
        let entry: &(String, V) = &self.entries[index];
        (entry.0.as_str(), &entry.1)
    }
}

} // verus!
