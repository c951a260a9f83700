//! A table of values keyed by name, in the order in which the names were
//! first registered. Registering a name that is already present replaces
//! its value and keeps its place.
use vstd::prelude::*;

verus! {

/// One named value of a [`NamedTable`].
#[derive(Debug)]
pub struct TableEntry<V> {
    pub name: String,
    pub value: V,
}

/// Values keyed by name; no name occurs twice.
#[derive(Debug)]
pub struct NamedTable<V> {
    entries: Vec<TableEntry<V>>,
}

impl<V> NamedTable<V> {
    #[verifier::type_invariant]
    spec fn distinct_names(self) -> bool {
        forall|i: int, j: int|
            0 <= i < j < self.entries@.len() ==> #[trigger] self.entries@[i].name@
                != #[trigger] self.entries@[j].name@
    }

    /// The names, in registration order.
    pub closed spec fn keys(self) -> Seq<Seq<char>> {
        self.entries@.map_values(|e: TableEntry<V>| e.name@)
    }

    /// The values, in the order of [`NamedTable::keys`].
    pub closed spec fn values(self) -> Seq<V> {
        self.entries@.map_values(|e: TableEntry<V>| e.value)
    }

    /// Whether `k` is one of the names.
    pub open spec fn has(self, k: Seq<char>) -> bool {
        self.keys().contains(k)
    }

    /// The value registered under `k`, if any.
    pub open spec fn lookup(self, k: Seq<char>) -> Option<V> {
        if self.has(k) {
            Some(self.values()[self.keys().index_of(k)])
        } else {
            None
        }
    }

    /// The table as a map from name to value.
    pub open spec fn as_map(self) -> Map<Seq<char>, V> {
        Map::new(|k: Seq<char>| self.has(k), |k: Seq<char>| self.values()[self.keys().index_of(k)])
    }

    /// An empty table.
    pub fn new() -> (t: Self)
        ensures
            t.keys() == Seq::<Seq<char>>::empty(),
            t.values() == Seq::<V>::empty(),
    {
        let t = NamedTable { entries: Vec::new() };
        assert(t.keys() =~= Seq::<Seq<char>>::empty());
        assert(t.values() =~= Seq::<V>::empty());
        t
    }

    /// Number of names.
    pub fn len(&self) -> (n: usize)
        ensures
            n == self.keys().len(),
            n == self.values().len(),
            self.keys().no_duplicates(),
    {
        proof {
            use_type_invariant(self);
            self.lemma_distinct();
        }
        self.entries.len()
    }

    proof fn lemma_distinct(self)
        requires
            self.distinct_names(),
        ensures
            self.keys().len() == self.values().len(),
            self.keys().no_duplicates(),
            forall|i: int|
                0 <= i < self.keys().len() ==> self.keys().index_of(#[trigger] self.keys()[i])
                    == i,
    {
        assert forall|i: int, j: int|
            0 <= i < self.keys().len() && 0 <= j < self.keys().len() && i != j implies self.keys()[i]
            != self.keys()[j] by {
            if i < j {
                assert(self.entries@[i].name@ != self.entries@[j].name@);
            } else {
                assert(self.entries@[j].name@ != self.entries@[i].name@);
            }
        }
        assert forall|i: int| 0 <= i < self.keys().len() implies self.keys().index_of(
            #[trigger] self.keys()[i],
        ) == i by {
            let k = self.keys()[i];
            assert(self.keys().contains(k));
            let j = self.keys().index_of(k);
            assert(self.keys()[j] == k);
        }
    }

    /// Position of `name` among the names, if present.
    pub fn find(&self, name: &str) -> (r: Option<usize>)
        ensures
            match r {
                Some(i) => i < self.keys().len() && self.keys()[i as int] == name@ && self.keys().index_of(name@) == i,
                None => !self.has(name@),
            },
    {
        proof {
            use_type_invariant(self);
            self.lemma_distinct();
        }
        let ghost keys = self.keys();
        let target = String::from_str(name);
        let mut i: usize = 0;
        while i < self.entries.len()
            invariant
                keys == self.keys(),
                target@ == name@,
                i <= self.entries@.len(),
                forall|j: int| 0 <= j < i ==> keys[j] != name@,
                forall|j: int| 0 <= j < keys.len() ==> keys.index_of(#[trigger] keys[j]) == j,
            decreases self.entries.len() - i,
        {
            if self.entries[i].name == target {
                assert(keys[i as int] == name@);
                assert(keys.index_of(keys[i as int]) == i);
                return Some(i);
            }
            i = i + 1;
        }
        assert forall|j: int| 0 <= j < keys.len() implies keys[j] != name@ by {}
        None
    }

    /// Whether `name` is registered.
    pub fn contains_key(&self, name: &str) -> (b: bool)
        ensures
            b == self.has(name@),
    {
        self.find(name).is_some()
    }

    /// The value registered under `name`.
    pub fn get(&self, name: &str) -> (r: Option<&V>)
        ensures
            match r {
                Some(v) => self.lookup(name@) == Some(*v),
                None => self.lookup(name@) is None,
            },
    {
        match self.find(name) {
            Some(i) => {
                assert(self.keys().contains(name@));
                Some(&self.entries[i].value)
            },
            None => None,
        }
    }

    /// The name and value at position `i`.
    pub fn entry(&self, i: usize) -> (r: (&String, &V))
        requires
            i < self.keys().len(),
        ensures
            r.0@ == self.keys()[i as int],
            *r.1 == self.values()[i as int],
            self.lookup(r.0@) == Some(*r.1),
    {
        proof {
            use_type_invariant(self);
            self.lemma_distinct();
        }
        let e = &self.entries[i];
        assert(self.keys().contains(self.keys()[i as int]));
        (&e.name, &e.value)
    }

    /// Registers `value` under `name`, replacing any earlier value for
    /// that name in place; a new name is added at the end.
    pub fn insert(&mut self, name: String, value: V)
        ensures
            old(self).has(name@) ==> final(self).keys() == old(self).keys(),
            old(self).has(name@) ==> final(self).values() == old(self).values().update(
                old(self).keys().index_of(name@),
                value,
            ),
            !old(self).has(name@) ==> final(self).keys() == old(self).keys().push(name@),
            !old(self).has(name@) ==> final(self).values() == old(self).values().push(value),
            final(self).keys().no_duplicates(),
            final(self).as_map() == old(self).as_map().insert(name@, value),
    {
        proof {
            use_type_invariant(&*self);
            (*self).lemma_distinct();
        }
        let ghost old_keys = self.keys();
        let ghost old_values = self.values();
        let ghost old_map = self.as_map();
        match self.find(name.as_str()) {
            Some(i) => {
                let e = TableEntry { name, value };
                let ghost n = e.name@;
                let mut es: Vec<TableEntry<V>> = Vec::new();
                std::mem::swap(&mut es, &mut self.entries);
                es.set(i, e);
                self.entries = es;
                assert(self.keys() =~= old_keys);
                assert(self.values() =~= old_values.update(i as int, self.entries@[i as int].value));
                proof {
                    use_type_invariant(&*self);
                    (*self).lemma_distinct();
                    assert forall|k: Seq<char>| #[trigger] self.has(k) == old_map.insert(n, self.entries@[i as int].value).contains_key(k) by {}
                    assert(self.as_map() =~= old_map.insert(n, self.entries@[i as int].value));
                }
            },
            None => {
                let e = TableEntry { name, value };
                let ghost n = e.name@;
                let ghost v = e.value;
                proof {
                    assert forall|j: int| 0 <= j < self.entries@.len() implies #[trigger] self.entries@[j].name@ != n by {
                        assert(old_keys[j] == self.entries@[j].name@);
                    }
                }
                let mut es: Vec<TableEntry<V>> = Vec::new();
                std::mem::swap(&mut es, &mut self.entries);
                es.push(e);
                self.entries = es;
                assert(self.keys() =~= old_keys.push(n));
                assert(self.values() =~= old_values.push(v));
                proof {
                    use_type_invariant(&*self);
                    (*self).lemma_distinct();
                    assert forall|k: Seq<char>| #[trigger] self.has(k) == old_map.insert(n, v).contains_key(k) by {
                        assert(old_map.contains_key(k) == old_keys.contains(k));
                        if k == n {
                            assert(self.keys()[old_keys.len() as int] == n);
                        }
                        if k != n && self.has(k) {
                            let j = self.keys().index_of(k);
                            assert(self.keys()[j] == k);
                            assert(j < old_keys.len());
                            assert(old_keys[j] == k);
                        }
                        if old_keys.contains(k) {
                            let j = old_keys.index_of(k);
                            assert(self.keys()[j] == k);
                        }
                    }
                    assert forall|k: Seq<char>| #[trigger] self.has(k) && k != n implies self.values()[self.keys().index_of(k)] == old_values[old_keys.index_of(k)] by {
                        let j = self.keys().index_of(k);
                        assert(self.keys()[j] == k);
                        assert(j < old_keys.len());
                        assert(old_keys[j] == k);
                        assert(old_keys.index_of(k) == j);
                    }
                    assert(self.keys()[old_keys.len() as int] == n);
                    assert(self.as_map() =~= old_map.insert(n, v));
                }
            },
        }
    }
}

/// Read-after-write law of a table: once `v` is registered under `k`, a
/// lookup of `k` gives `v`, and a lookup of any other name gives what it gave
/// before.
pub proof fn lemma_lookup_after_insert<V>(before: NamedTable<V>, after: NamedTable<V>, k: Seq<char>, v: V)
    requires
        after.as_map() == before.as_map().insert(k, v),
    ensures
        after.lookup(k) == Some(v),
        forall|k2: Seq<char>| k2 != k ==> #[trigger] after.lookup(k2) == before.lookup(k2),
{
    assert(after.as_map().contains_key(k));
    assert(after.has(k));
    assert(after.as_map()[k] == after.values()[after.keys().index_of(k)]);
    assert forall|k2: Seq<char>| k2 != k implies #[trigger] after.lookup(k2) == before.lookup(k2) by {
        assert(after.as_map().contains_key(k2) == before.as_map().contains_key(k2));
        if before.has(k2) {
            assert(after.as_map()[k2] == before.as_map()[k2]);
            assert(after.as_map()[k2] == after.values()[after.keys().index_of(k2)]);
            assert(before.as_map()[k2] == before.values()[before.keys().index_of(k2)]);
        }
    }
}

impl<V> NamedTable<V> {
    /// Registers the value of `entry` under its name, as [`NamedTable::insert`]
    /// does: afterwards the name looks up that value, and every other name
    /// looks up what it did before.
    pub fn insert_entry(&mut self, entry: (String, V))
        ensures
            final(self).as_map() == old(self).as_map().insert(entry.0@, entry.1),
            final(self).lookup(entry.0@) == Some(entry.1),
            forall|k: Seq<char>| k != entry.0@ ==> #[trigger] final(self).lookup(k) == old(self).lookup(k),
    {
        let ghost before = *self;
        let (name, value) = entry;
        self.insert(name, value);
        proof {
            lemma_lookup_after_insert(before, *self, entry.0@, entry.1);
        }
    }
}

} // verus!
