//! A small map from text to values, kept in the order of arrival.

use vstd::prelude::*;

verus! {

/// A map whose keys are pieces of text. No key occurs twice.
#[derive(Debug)]
pub struct Table<V> {
    keys: Vec<String>,
    values: Vec<V>,
}

impl<V> View for Table<V> {
    type V = Map<Seq<char>, V>;

    closed spec fn view(&self) -> Map<Seq<char>, V> {
        Map::new(
            |key: Seq<char>| self.keys().contains(key),
            |key: Seq<char>| self.values()[self.keys().index_of(key)],
        )
    }
}

impl<V> Table<V> {
    /// The keys, in the order of their arrival.
    pub closed spec fn keys(&self) -> Seq<Seq<char>> {
        self.keys@.map_values(|key: String| key@)
    }

    /// The values, each at the place of its key.
    pub closed spec fn values(&self) -> Seq<V> {
        self.values@
    }

    /// Whether the table is in order: every key has its value and no key
    /// occurs twice.
    pub closed spec fn wf(&self) -> bool {
        &&& self.keys().len() == self.values().len()
        &&& self.keys().no_duplicates()
    }

    /// How the entries, place by place, and the map go together.
    pub proof fn lemma_entries(&self)
        requires
            self.wf(),
        ensures
            self.keys().len() == self.values().len(),
            self.keys().no_duplicates(),
            forall|i: int|
                0 <= i < self.keys().len() ==> self@.contains_key(#[trigger] self.keys()[i])
                    && self@[self.keys()[i]] == self.values()[i],
            forall|key: Seq<char>| #[trigger]
                self@.contains_key(key) ==> self.keys().contains(key),
    {
        assert forall|i: int| 0 <= i < self.keys().len() implies self@.contains_key(
            #[trigger] self.keys()[i],
        ) && self@[self.keys()[i]] == self.values()[i] by {
            let key = self.keys()[i];
            assert(self.keys().contains(key));
            let found = self.keys().index_of(key);
            assert(self.keys()[found] == key);
        }
    }

    /// A table with no entry.
    pub fn new() -> (table: Table<V>)
        ensures
            table.wf(),
            table@ == Map::<Seq<char>, V>::empty(),
            table.keys().len() == 0,
    {
        let table = Table { keys: Vec::new(), values: Vec::new() };
        assert(table.keys() =~= Seq::<Seq<char>>::empty());
        assert(table@ =~= Map::<Seq<char>, V>::empty());
        table
    }

    /// How many entries there are.
    pub fn len(&self) -> (count: usize)
        requires
            self.wf(),
        ensures
            count == self.keys().len(),
    {
        self.keys.len()
    }

    /// The key at a place.
    pub fn key(&self, at: usize) -> (key: &String)
        requires
            self.wf(),
            at < self.keys().len(),
        ensures
            key@ == self.keys()[at as int],
    {
        &self.keys[at]
    }

    /// The value at a place.
    pub fn value(&self, at: usize) -> (value: &V)
        requires
            self.wf(),
            at < self.keys().len(),
        ensures
            *value == self.values()[at as int],
    {
        &self.values[at]
    }

    /// The place of a key.
    pub fn position(&self, key: &String) -> (place: Option<usize>)
        requires
            self.wf(),
        ensures
            match place {
                Some(at) => at < self.keys().len() && self.keys()[at as int] == key@,
                None => !self.keys().contains(key@),
            },
            place is Some == self@.contains_key(key@),
    {
        let mut at: usize = 0;
        while at < self.keys.len()
            invariant
                at <= self.keys().len(),
                self.keys().len() == self.keys@.len(),
                forall|i: int| 0 <= i < at ==> self.keys()[i] != key@,
            decreases self.keys@.len() - at,
        {
            if self.keys[at] == *key {
                assert(self.keys()[at as int] == key@);
                return Some(at);
            }
            at = at + 1;
        }
        None
    }

    /// Whether a key has a value.
    pub fn contains_key(&self, key: &String) -> (found: bool)
        requires
            self.wf(),
        ensures
            found == self@.contains_key(key@),
    {
        self.position(key).is_some()
    }

    /// The value of a key.
    pub fn get(&self, key: &String) -> (value: Option<&V>)
        requires
            self.wf(),
        ensures
            match value {
                Some(found) => self@.contains_key(key@) && *found == self@[key@],
                None => !self@.contains_key(key@),
            },
    {
        proof {
            self.lemma_entries();
        }
        match self.position(key) {
            Some(at) => Some(&self.values[at]),
            None => None,
        }
    }

    /// Gives a key a value, in place of the one it had if it had one.
    pub fn insert(&mut self, key: String, value: V)
        requires
            old(self).wf(),
        ensures
            final(self).wf(),
            final(self)@ == old(self)@.insert(key@, value),
    {
        proof {
            self.lemma_entries();
        }
        match self.position(&key) {
            Some(at) => {
                self.values[at] = value;
                proof {
                    assert(self.keys() == old(self).keys());
                    self.lemma_entries();
                    assert(self@ =~= old(self)@.insert(key@, value)) by {
                        assert forall|other: Seq<char>| #[trigger]
                            self@.contains_key(other) implies self@[other] == old(self)@.insert(
                            key@,
                            value,
                        )[other] by {
                            let place = self.keys().index_of(other);
                            assert(self.keys()[place] == other);
                        }
                    }
                }
            },
            None => {
                self.keys.push(key);
                self.values.push(value);
                proof {
                    assert(self.keys() =~= old(self).keys().push(key@));
                    assert(self.keys().no_duplicates());
                    self.lemma_entries();
                    assert(self@ =~= old(self)@.insert(key@, value)) by {
                        assert(self.keys()[self.keys().len() - 1] == key@);
                        assert forall|other: Seq<char>|
                            old(self)@.insert(key@, value).contains_key(
                                other,
                            ) implies #[trigger] self@.contains_key(other) by {
                            if other != key@ {
                                let place = old(self).keys().index_of(other);
                                assert(self.keys()[place] == other);
                            }
                        }
                        assert forall|other: Seq<char>| #[trigger]
                            self@.contains_key(other) implies old(self)@.insert(
                            key@,
                            value,
                        ).contains_key(other) && self@[other] == old(self)@.insert(key@, value)[other] by {
                            let place = self.keys().index_of(other);
                            assert(self.keys()[place] == other);
                            if place < old(self).keys().len() {
                                assert(old(self).keys()[place] == other);
                            }
                        }
                    }
                }
            },
        }
    }

    /// Takes a key and its value out.
    pub fn remove(&mut self, key: &String) -> (value: Option<V>)
        requires
            old(self).wf(),
        ensures
            final(self).wf(),
            final(self)@ == old(self)@.remove(key@),
            match value {
                Some(taken) => old(self)@.contains_key(key@) && taken == old(self)@[key@],
                None => !old(self)@.contains_key(key@),
            },
    {
        proof {
            self.lemma_entries();
        }
        match self.position(key) {
            Some(at) => {
                self.keys.remove(at);
                let taken = self.values.remove(at);
                proof {
                    assert(self.keys() =~= old(self).keys().remove(at as int));
                    assert(self.keys().no_duplicates()) by {
                        assert forall|i: int, j: int|
                            0 <= i < self.keys().len() && 0 <= j < self.keys().len() && i
                                != j implies self.keys()[i] != self.keys()[j] by {
                            let a = if i < at { i } else { i + 1 };
                            let b = if j < at { j } else { j + 1 };
                            assert(self.keys()[i] == old(self).keys()[a]);
                            assert(self.keys()[j] == old(self).keys()[b]);
                        }
                    }
                    self.lemma_entries();
                    assert(self@ =~= old(self)@.remove(key@)) by {
                        assert forall|other: Seq<char>|
                            old(self)@.remove(key@).contains_key(
                                other,
                            ) implies #[trigger] self@.contains_key(other) by {
                            let place = old(self).keys().index_of(other);
                            assert(old(self).keys()[place] == other);
                            let moved = if place < at { place } else { place - 1 };
                            assert(self.keys()[moved] == other);
                        }
                        assert forall|other: Seq<char>| #[trigger]
                            self@.contains_key(other) implies old(self)@.remove(
                            key@,
                        ).contains_key(other) && self@[other] == old(self)@.remove(key@)[other] by {
                            let place = self.keys().index_of(other);
                            assert(self.keys()[place] == other);
                            let from = if place < at { place } else { place + 1 };
                            assert(old(self).keys()[from] == other);
                        }
                    }
                }
                Some(taken)
            },
            None => {
                assert(self@ =~= old(self)@.remove(key@));
                None
            },
        }
    }
}

} // verus!
