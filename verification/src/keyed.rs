//! Lists of values keyed by name, where each name occurs once: the maps of
//! the release tooling, kept in insertion order.

use vstd::prelude::*;
use crate::text::str_eq;

verus! {

/// Values keyed by name; inserting under a present name replaces its value.
pub struct KeyedList<V> {
    entries: Vec<(String, V)>,
}

impl<V> View for KeyedList<V> {
    type V = Map<Seq<char>, V>;

    /// The value stored under each name.
    closed spec fn view(&self) -> Map<Seq<char>, V> {
        let names = self.entries@.map_values(|e: (String, V)| e.0@);
        Map::new(|k: Seq<char>| names.contains(k), |k: Seq<char>| self.entries@[names.index_of(k)].1)
    }
}

impl<V> KeyedList<V> {
    /// The names in insertion order.
    pub closed spec fn names(&self) -> Seq<Seq<char>> {
        self.entries@.map_values(|e: (String, V)| e.0@)
    }

    /// The values in insertion order.
    pub closed spec fn values(&self) -> Seq<V> {
        self.entries@.map_values(|e: (String, V)| e.1)
    }

    /// No name occurs twice.
    #[verifier::type_invariant]
    spec fn distinct(&self) -> bool {
        self.names().no_duplicates()
    }

    /// The names and values line up with the map.
    proof fn lemma_entries(&self)
        requires
            self.names().no_duplicates(),
        ensures
            self.names().len() == self.values().len(),
            self.names().no_duplicates(),
            forall|i: int| 0 <= i < self.names().len() ==> self@.contains_key(#[trigger] self.names()[i])
                && self@[self.names()[i]] == self.values()[i],
            forall|k: Seq<char>| #[trigger] self@.contains_key(k) <==> self.names().contains(k),
    {
        assert forall|i: int| 0 <= i < self.names().len() implies self@.contains_key(#[trigger] self.names()[i])
            && self@[self.names()[i]] == self.values()[i] by {
            let names = self.names();
            assert(names.contains(names[i]));
            let j = names.index_of(names[i]);
            assert(names[j] == names[i]);
        }
    }

    /// An empty list.
    pub fn new() -> (r: Self)
        ensures
            r@ == Map::<Seq<char>, V>::empty(),
            r.names().len() == 0,
    {
        let r = KeyedList { entries: Vec::new() };
        assert(r@ =~= Map::<Seq<char>, V>::empty());
        r
    }

    /// The number of names.
    pub fn len(&self) -> (n: usize)
        ensures
            n == self.names().len(),
            n == self@.dom().len(),
    {
        proof {
            use_type_invariant(self);
            self.lemma_entries();
            assert(self@.dom() =~= self.names().to_set());
            self.names().unique_seq_to_set();
        }
        self.entries.len()
    }

    /// The position of `name`, if present.
    fn position(&self, name: &str) -> (r: Option<usize>)
        ensures
            r matches Some(i) ==> i < self.names().len() && self.names()[i as int] == name@,
            r is None ==> !self.names().contains(name@),
    {
        let n = self.entries.len();
        let mut i: usize = 0;
        while i < n
            invariant
                n == self.entries@.len(),
                i <= n,
                forall|j: int| 0 <= j < i ==> self.names()[j] != name@,
            decreases n - i,
        {
            if str_eq(self.entries[i].0.as_str(), name) {
                return Some(i);
            }
            i = i + 1;
        }
        None
    }

    /// The value stored under `name`.
    pub fn get(&self, name: &str) -> (r: Option<&V>)
        ensures
            r is Some <==> self@.contains_key(name@),
            r matches Some(v) ==> *v == self@[name@],
    {
        proof {
            use_type_invariant(self);
            self.lemma_entries();
        }
        match self.position(name) {
            Some(i) => {
                assert(self.values()[i as int] == self.entries@[i as int].1);
                Some(&self.entries[i].1)
            },
            None => None,
        }
    }

    /// Whether a value is stored under `name`.
    pub fn contains_key(&self, name: &str) -> (r: bool)
        ensures
            r == self@.contains_key(name@),
    {
        proof {
            use_type_invariant(self);
            self.lemma_entries();
        }
        match self.position(name) {
            Some(_) => true,
            None => false,
        }
    }

    /// The names and values in insertion order.
    pub fn entries(&self) -> (r: &Vec<(String, V)>)
        ensures
            r@.map_values(|e: (String, V)| e.0@) == self.names(),
            r@.map_values(|e: (String, V)| e.1) == self.values(),
            self.names().len() == self.values().len(),
            self.names().no_duplicates(),
            forall|i: int| 0 <= i < self.names().len() ==> self@.contains_key(#[trigger] self.names()[i])
                && self@[self.names()[i]] == self.values()[i],
            forall|k: Seq<char>| #[trigger] self@.contains_key(k) <==> self.names().contains(k),
    {
        proof {
            use_type_invariant(self);
            self.lemma_entries();
        }
        &self.entries
    }

    /// The names and values in insertion order, taking the list apart.
    pub fn into_entries(self) -> (r: Vec<(String, V)>)
        ensures
            r@.map_values(|e: (String, V)| e.0@) == self.names(),
            r@.map_values(|e: (String, V)| e.1) == self.values(),
            self.names().len() == self.values().len(),
            self.names().no_duplicates(),
            forall|i: int| 0 <= i < self.names().len() ==> self@.contains_key(#[trigger] self.names()[i])
                && self@[self.names()[i]] == self.values()[i],
            forall|k: Seq<char>| #[trigger] self@.contains_key(k) <==> self.names().contains(k),
    {
        proof {
            use_type_invariant(&self);
            self.lemma_entries();
        }
        self.entries
    }

    /// Stores `value` under `name`, replacing a value stored there. A new
    /// name goes last; a present name keeps its place.
    pub fn insert(&mut self, name: String, value: V)
        ensures
            final(self)@ == old(self)@.insert(name@, value),
            old(self).names().contains(name@) ==> final(self).names() == old(self).names(),
            !old(self).names().contains(name@) ==> final(self).names() == old(self).names().push(name@),
    {
        proof {
            use_type_invariant(&*self);
            self.lemma_entries();
        }
        let ghost old_self = *self;
        let ghost key = name@;
        match self.position(name.as_str()) {
            Some(i) => {
                let mut entries: Vec<(String, V)> = Vec::new();
                std::mem::swap(&mut entries, &mut self.entries);
                entries.set(i, (name, value));
                proof {
                    assert(entries@.map_values(|e: (String, V)| e.0@) =~= old_self.names());
                }
                self.entries = entries;
                proof {
                    self.lemma_entries();
                    assert(self.names() =~= old_self.names());
                    assert(self.values() =~= old_self.values().update(i as int, value));
                    assert forall|k: Seq<char>| #![auto] self@.contains_key(k) implies self@[k]
                        == old_self@.insert(key, value)[k] by {
                        let j = self.names().index_of(k);
                        assert(self.names()[j] == k);
                        if k != key {
                            assert(j != i);
                        } else {
                            assert(j == i);
                        }
                    }
                    assert(self@ =~= old_self@.insert(key, value));
                }
            },
            None => {
                let mut entries: Vec<(String, V)> = Vec::new();
                std::mem::swap(&mut entries, &mut self.entries);
                entries.push((name, value));
                proof {
                    assert(entries@.map_values(|e: (String, V)| e.0@) =~= old_self.names().push(key));
                }
                self.entries = entries;
                proof {
                    self.lemma_entries();
                    assert(self.names() =~= old_self.names().push(key));
                    assert(self.values() =~= old_self.values().push(value));
                    let old_len = old_self.names().len() as int;
                    assert forall|k: Seq<char>| #![auto] self@.contains_key(k) <==> old_self@.insert(key, value).contains_key(k) by {
                        if k == key {
                            assert(self.names()[old_len] == k);
                        }
                        if old_self.names().contains(k) {
                            let j = old_self.names().index_of(k);
                            assert(self.names()[j] == k);
                        }
                        if self.names().contains(k) && k != key {
                            let j = self.names().index_of(k);
                            assert(old_self.names()[j] == k);
                        }
                    }
                    assert forall|k: Seq<char>| #![auto] self@.contains_key(k) implies self@[k]
                        == old_self@.insert(key, value)[k] by {
                        let j = self.names().index_of(k);
                        assert(self.names()[j] == k);
                        if k != key {
                            assert(j != old_len);
                            assert(old_self.names()[j] == k);
                        }
                    }
                    assert(self@ =~= old_self@.insert(key, value));
                }
            },
        }
    }
}

impl<V> KeyedList<V> {
    /// Removes the value stored under `name`, if there is one; the other
    /// names keep their order.
    pub fn remove(&mut self, name: &str)
        ensures
            final(self)@ == old(self)@.remove(name@),
    {
        proof {
            use_type_invariant(&*self);
            self.lemma_entries();
        }
        let ghost old_self = *self;
        let ghost key = name@;
        match self.position(name) {
            None => {
                assert(self@ =~= old_self@.remove(key));
            },
            Some(i) => {
                let mut entries: Vec<(String, V)> = Vec::new();
                std::mem::swap(&mut entries, &mut self.entries);
                entries.remove(i);
                let ghost on = old_self.names();
                let ghost nn = entries@.map_values(|e: (String, V)| e.0@);
                proof {
                    assert(nn =~= on.remove(i as int));
                    assert forall|a: int, b: int| 0 <= a < b < nn.len() implies nn[a] != nn[b] by {
                        let oa = if a < i { a } else { a + 1 };
                        let ob = if b < i { b } else { b + 1 };
                        assert(nn[a] == on[oa]);
                        assert(nn[b] == on[ob]);
                    }
                    assert(nn.no_duplicates());
                }
                self.entries = entries;
                proof {
                    self.lemma_entries();
                    let nv = self.values();
                    let ov = old_self.values();
                    assert(self.names() =~= nn);
                    assert(nv =~= ov.remove(i as int));
                    assert forall|k: Seq<char>| #![auto] self@.contains_key(k) <==> old_self@.remove(key).contains_key(k) by {
                        if self.names().contains(k) {
                            let j = self.names().index_of(k);
                            let oj = if j < i { j } else { j + 1 };
                            assert(on[oj] == k);
                            assert(oj != i);
                        }
                        if old_self.names().contains(k) && k != key {
                            let j = on.index_of(k);
                            assert(j != i);
                            let nj = if j < i { j } else { j - 1 };
                            assert(self.names()[nj] == k);
                        }
                    }
                    assert forall|k: Seq<char>| #![auto] self@.contains_key(k) implies self@[k]
                        == old_self@.remove(key)[k] by {
                        let j = self.names().index_of(k);
                        assert(self.names()[j] == k);
                        let oj = if j < i { j } else { j + 1 };
                        assert(on[oj] == k);
                        assert(nv[j] == ov[oj]);
                    }
                    assert(self@ =~= old_self@.remove(key));
                }
            },
        }
    }
}

/// Read after write: after `insert(name, value)` the list holds `value` under
/// `name`, and every other name holds what it held before.
pub proof fn law_get_after_insert<V>(before: KeyedList<V>, after: KeyedList<V>, name: Seq<char>, value: V, other: Seq<char>)
    requires
        after@ == before@.insert(name, value),
    ensures
        after@.contains_key(name),
        after@[name] == value,
        other != name ==> (after@.contains_key(other) == before@.contains_key(other)),
        other != name && before@.contains_key(other) ==> after@[other] == before@[other],
{
}

} // verus!
