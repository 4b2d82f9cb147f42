//! A small map from strings to values that keeps its entries in insertion
//! order.
use crate::text::same_text;
use vstd::prelude::*;
use vstd::string::*;

verus! {

/// A map keyed by strings. No key occurs twice; the entries stand in the
/// order in which their keys were first inserted.
#[derive(Debug)]
pub struct StringMap<V> {
    entries: Vec<(String, V)>,
}

/// The position of `key` among `entries`, if it is there.
pub open spec fn position_of<V>(entries: Seq<(String, V)>, key: Seq<char>) -> Option<int> {
    if exists|i: int| 0 <= i < entries.len() && entries[i].0@ == key {
        Some(choose|i: int| 0 <= i < entries.len() && entries[i].0@ == key)
    } else {
        None
    }
}

impl<V> StringMap<V> {
    #[verifier::type_invariant]
    spec fn distinct_keys(&self) -> bool {
        forall|i: int, j: int|
            0 <= i < j < self.entries@.len() ==> self.entries@[i].0@ != self.entries@[j].0@
    }

    /// The entries, in insertion order, each with the text of its key.
    pub closed spec fn entries(&self) -> Seq<(Seq<char>, V)> {
        Seq::new(self.entries@.len(), |i: int| (self.entries@[i].0@, self.entries@[i].1))
    }

    /// The map from the text of each key to its value.
    pub closed spec fn view(&self) -> Map<Seq<char>, V> {
        Map::new(
            |key: Seq<char>| exists|i: int| 0 <= i < self.entries@.len() && self.entries@[i].0@ == key,
            |key: Seq<char>|
                self.entries@[choose|i: int|
                    0 <= i < self.entries@.len() && self.entries@[i].0@ == key].1,
        )
    }

    /// The entries are exactly what the map holds, and no key stands twice
    /// among them.
    proof fn lemma_entries(&self)
        requires
            self.distinct_keys(),
        ensures
            forall|i: int|
                0 <= i < self.entries().len() ==> self@.contains_key(
                    (#[trigger] self.entries()[i]).0,
                ) && self@[self.entries()[i].0] == self.entries()[i].1,
            forall|key: Seq<char>|
                self@.contains_key(key) ==> exists|i: int|
                    0 <= i < self.entries().len() && (#[trigger] self.entries()[i]).0 == key,
            forall|i: int, j: int|
                0 <= i < j < self.entries().len() ==> self.entries()[i].0 != self.entries()[j].0,
    {
        assert forall|i: int| 0 <= i < self.entries().len() implies self@.contains_key(
            (#[trigger] self.entries()[i]).0,
        ) && self@[self.entries()[i].0] == self.entries()[i].1 by {
            let key = self.entries@[i].0@;
            assert(self.entries@[i].0@ == key);
            let chosen = choose|c: int| 0 <= c < self.entries@.len() && self.entries@[c].0@ == key;
            assert(chosen == i);
        }
        assert forall|key: Seq<char>| self@.contains_key(key) implies exists|i: int|
            0 <= i < self.entries().len() && (#[trigger] self.entries()[i]).0 == key by {
            let i = choose|i: int| 0 <= i < self.entries@.len() && self.entries@[i].0@ == key;
            assert(self.entries()[i].0 == key);
        }
    }

    /// An empty map.
    pub fn new() -> (map: Self)
        ensures
            map@ == Map::<Seq<char>, V>::empty(),
            map.entries().len() == 0,
    {
        let map = StringMap { entries: Vec::new() };
        assert(map@ =~= Map::<Seq<char>, V>::empty());
        map
    }

    /// The number of entries.
    pub fn len(&self) -> (count: usize)
        ensures
            count == self.entries().len(),
    {
        self.entries.len()
    }

    /// The key of the entry at `index`: one of the keys of the map.
    pub fn key_at(&self, index: usize) -> (key: &String)
        requires
            index < self.entries().len(),
        ensures
            key@ == self.entries()[index as int].0,
            self@.contains_key(key@),
    {
        proof {
            use_type_invariant(self);
            self.lemma_entries();
        }
        &self.entries[index].0
    }

    /// The value of the entry at `index`: what the map holds under the key
    /// of that entry.
    pub fn value_at(&self, index: usize) -> (value: &V)
        requires
            index < self.entries().len(),
        ensures
            *value == self.entries()[index as int].1,
            *value == self@[self.entries()[index as int].0],
    {
        proof {
            use_type_invariant(self);
            self.lemma_entries();
        }
        &self.entries[index].1
    }

    /// The position of the entry with the key `key`.
    fn find(&self, key: &str) -> (found: Option<usize>)
        ensures
            match found {
                Some(index) => index < self.entries@.len() && self.entries@[index as int].0@
                    == key@,
                None => forall|i: int| 0 <= i < self.entries@.len() ==> self.entries@[i].0@ != key@,
            },
    {
        let mut index: usize = 0;
        while index < self.entries.len()
            invariant
                index <= self.entries@.len(),
                forall|i: int| 0 <= i < index ==> self.entries@[i].0@ != key@,
            decreases self.entries@.len() - index,
        {
            if same_text(self.entries[index].0.as_str(), key) {
                return Some(index);
            }
            index = index + 1;
        }
        None
    }

    /// Whether the map holds a value under `key`.
    pub fn contains_key(&self, key: &str) -> (held: bool)
        ensures
            held == self@.contains_key(key@),
    {
        self.find(key).is_some()
    }

    /// The value under `key`, if there is one.
    pub fn get(&self, key: &str) -> (found: Option<&V>)
        ensures
            match found {
                Some(value) => self@.contains_key(key@) && *value == self@[key@],
                None => !self@.contains_key(key@),
            },
    {
        proof {
            use_type_invariant(self);
        }
        match self.find(key) {
            Some(index) => {
                proof {
                    let chosen = choose|i: int|
                        0 <= i < self.entries@.len() && self.entries@[i].0@ == key@;
                    assert(chosen == index);
                }
                Some(&self.entries[index].1)
            },
            None => None,
        }
    }

    /// Puts `value` under `key`. A value that stood there is replaced and
    /// handed back; the key keeps its place among the entries. A new key
    /// comes last.
    pub fn insert(&mut self, key: String, value: V) -> (replaced: Option<V>)
        ensures
            final(self)@ == old(self)@.insert(key@, value),
            match replaced {
                Some(previous) => old(self)@.contains_key(key@) && previous == old(self)@[key@],
                None => !old(self)@.contains_key(key@),
            },
    {
        proof {
            use_type_invariant(&*self);
        }
        match self.find(key.as_str()) {
            Some(index) => {
                let ghost before = self.entries@;
                let mut entries: Vec<(String, V)> = Vec::new();
                std::mem::swap(&mut entries, &mut self.entries);
                let (kept_key, previous) = entries.remove(index);
                entries.insert(index, (kept_key, value));
                self.entries = entries;
                proof {
                    assert(self.entries@ =~= before.update(index as int, (kept_key, value)));
                    let chosen = choose|i: int| 0 <= i < before.len() && before[i].0@ == key@;
                    assert(chosen == index);
                    assert forall|k: Seq<char>| #[trigger]
                        self@.contains_key(k) == old(self)@.insert(key@, value).contains_key(
                            k,
                        ) by {
                        if exists|i: int| 0 <= i < before.len() && before[i].0@ == k {
                            let i = choose|i: int| 0 <= i < before.len() && before[i].0@ == k;
                            assert(self.entries@[i].0@ == k);
                        }
                        if exists|i: int| 0 <= i < self.entries@.len() && self.entries@[i].0@ == k {
                            let i = choose|i: int|
                                0 <= i < self.entries@.len() && self.entries@[i].0@ == k;
                            assert(before[i].0@ == k);
                        }
                    }
                    assert forall|k: Seq<char>| self@.contains_key(k) implies #[trigger] self@[k]
                        == old(self)@.insert(key@, value)[k] by {
                        let now = choose|i: int|
                            0 <= i < self.entries@.len() && self.entries@[i].0@ == k;
                        assert(before[now].0@ == k);
                        let then = choose|i: int| 0 <= i < before.len() && before[i].0@ == k;
                        assert(now == then);
                    }
                    assert(self@ =~= old(self)@.insert(key@, value));
                }
                Some(previous)
            },
            None => {
                let ghost before = self.entries@;
                let mut entries: Vec<(String, V)> = Vec::new();
                std::mem::swap(&mut entries, &mut self.entries);
                entries.push((key, value));
                self.entries = entries;
                proof {
                    assert forall|k: Seq<char>| #[trigger]
                        self@.contains_key(k) == old(self)@.insert(key@, value).contains_key(
                            k,
                        ) by {
                        if exists|i: int| 0 <= i < before.len() && before[i].0@ == k {
                            let i = choose|i: int| 0 <= i < before.len() && before[i].0@ == k;
                            assert(self.entries@[i].0@ == k);
                        }
                        if k == key@ {
                            assert(self.entries@[before.len() as int].0@ == k);
                        }
                    }
                    assert forall|k: Seq<char>| self@.contains_key(k) implies #[trigger] self@[k]
                        == old(self)@.insert(key@, value)[k] by {
                        let now = choose|i: int|
                            0 <= i < self.entries@.len() && self.entries@[i].0@ == k;
                        if k != key@ {
                            assert(now < before.len());
                            let then = choose|i: int| 0 <= i < before.len() && before[i].0@ == k;
                            assert(now == then);
                        }
                    }
                    assert(self@ =~= old(self)@.insert(key@, value));
                }
                None
            },
        }
    }

    /// Takes the value under `key` out of the map and hands it back, if
    /// there is one.
    pub fn remove(&mut self, key: &str) -> (removed: Option<V>)
        ensures
            final(self)@ == old(self)@.remove(key@),
            match removed {
                Some(value) => old(self)@.contains_key(key@) && value == old(self)@[key@],
                None => !old(self)@.contains_key(key@),
            },
    {
        proof {
            use_type_invariant(&*self);
        }
        match self.find(key) {
            Some(index) => {
                let ghost before = self.entries@;
                let mut entries: Vec<(String, V)> = Vec::new();
                std::mem::swap(&mut entries, &mut self.entries);
                let (_, value) = entries.remove(index);
                self.entries = entries;
                proof {
                    let chosen = choose|i: int| 0 <= i < before.len() && before[i].0@ == key@;
                    assert(chosen == index);
                    assert forall|k: Seq<char>| #[trigger]
                        self@.contains_key(k) == old(self)@.remove(key@).contains_key(k) by {
                        if exists|i: int| 0 <= i < before.len() && before[i].0@ == k {
                            let i = choose|i: int| 0 <= i < before.len() && before[i].0@ == k;
                            if k != key@ {
                                if i < index {
                                    assert(self.entries@[i].0@ == k);
                                } else {
                                    assert(self.entries@[i - 1].0@ == k);
                                }
                            }
                        }
                        if exists|i: int| 0 <= i < self.entries@.len() && self.entries@[i].0@ == k {
                            let i = choose|i: int|
                                0 <= i < self.entries@.len() && self.entries@[i].0@ == k;
                            if i < index {
                                assert(before[i].0@ == k);
                            } else {
                                assert(before[i + 1].0@ == k);
                            }
                        }
                    }
                    assert forall|k: Seq<char>| self@.contains_key(k) implies #[trigger] self@[k]
                        == old(self)@.remove(key@)[k] by {
                        let now = choose|i: int|
                            0 <= i < self.entries@.len() && self.entries@[i].0@ == k;
                        let origin = if now < index {
                            now
                        } else {
                            now + 1
                        };
                        assert(before[origin].0@ == k);
                        let then = choose|i: int| 0 <= i < before.len() && before[i].0@ == k;
                        assert(origin == then);
                    }
                    assert(self@ =~= old(self)@.remove(key@));
                }
                Some(value)
            },
            None => {
                assert(self@ =~= old(self)@.remove(key@));
                None
            },
        }
    }
}

/// The texts that a map of strings holds, key by key.
pub open spec fn texts(map: Map<Seq<char>, String>) -> Map<Seq<char>, Seq<char>> {
    Map::new(|key: Seq<char>| map.contains_key(key), |key: Seq<char>| map[key]@)
}

impl StringMap<String> {
    /// A copy of the map: the same keys with the same texts, in the same
    /// order.
    pub fn duplicate(&self) -> (copy: Self)
        ensures
            texts(copy@) == texts(self@),
            copy.entries().len() == self.entries().len(),
            forall|i: int|
                0 <= i < self.entries().len() ==> (#[trigger] copy.entries()[i]).0
                    == self.entries()[i].0 && copy.entries()[i].1@ == self.entries()[i].1@,
    {
        proof {
            use_type_invariant(self);
        }
        let mut entries: Vec<(String, String)> = Vec::new();
        let mut index: usize = 0;
        while index < self.entries.len()
            invariant
                index <= self.entries@.len(),
                entries@.len() == index,
                forall|i: int|
                    0 <= i < index ==> (#[trigger] entries@[i]).0@ == self.entries@[i].0@
                        && entries@[i].1@ == self.entries@[i].1@,
            decreases self.entries@.len() - index,
        {
            entries.push((self.entries[index].0.clone(), self.entries[index].1.clone()));
            index = index + 1;
        }
        let copy = StringMap { entries };
        proof {
            copy.lemma_entries();
            self.lemma_entries();
            assert forall|key: Seq<char>| copy@.contains_key(key) == self@.contains_key(key) by {
                if copy@.contains_key(key) {
                    let i = choose|i: int|
                        0 <= i < copy.entries().len() && (#[trigger] copy.entries()[i]).0 == key;
                    assert(self.entries()[i].0 == key);
                }
                if self@.contains_key(key) {
                    let i = choose|i: int|
                        0 <= i < self.entries().len() && (#[trigger] self.entries()[i]).0 == key;
                    assert(copy.entries()[i].0 == key);
                }
            }
            assert forall|key: Seq<char>| self@.contains_key(key) implies copy@[key]@
                == self@[key]@ by {
                let i = choose|i: int|
                    0 <= i < self.entries().len() && (#[trigger] self.entries()[i]).0 == key;
                assert(copy.entries()[i].0 == key);
            }
            assert(texts(copy@) =~= texts(self@));
        }
        copy
    }
}

} // verus!
