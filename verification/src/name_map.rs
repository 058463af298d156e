//! A small map from names to values that remembers the order of insertion.
use vstd::prelude::*;
use crate::text::same_text;

verus! {

/// `i` is the first position at which `names` holds `name`.
pub open spec fn is_first_at(names: Seq<Seq<char>>, name: Seq<char>, i: int) -> bool {
    &&& 0 <= i < names.len()
    &&& names[i] == name
    &&& forall|j: int| 0 <= j < i ==> names[j] != name
}

/// The first position at which `names` holds `name`; meaningful only where
/// `names` contains `name`.
pub open spec fn first_index(names: Seq<Seq<char>>, name: Seq<char>) -> int {
    choose|i: int| is_first_at(names, name, i)
}

/// A name that occurs in `names` has exactly one first position.
pub proof fn lemma_first_index(names: Seq<Seq<char>>, name: Seq<char>)
    requires
        names.contains(name),
    ensures
        is_first_at(names, name, first_index(names, name)),
        forall|i: int| is_first_at(names, name, i) ==> i == first_index(names, name),
    decreases names.len(),
{
    let k = choose|k: int| 0 <= k < names.len() && names[k] == name;
    lemma_first_below(names, name, k);
}

/// If `names` holds `name` at position `k`, a first position exists at or
/// before `k`.
proof fn lemma_first_below(names: Seq<Seq<char>>, name: Seq<char>, k: int)
    requires
        0 <= k < names.len(),
        names[k] == name,
    ensures
        exists|i: int| is_first_at(names, name, i),
    decreases k,
{
    if forall|j: int| 0 <= j < k ==> names[j] != name {
        assert(is_first_at(names, name, k));
    } else {
        let j = choose|j: int| 0 <= j < k && names[j] == name;
        lemma_first_below(names, name, j);
    }
}

/// The first position of `name` in `names`, if it occurs there.
pub fn position_of(names: &Vec<String>, name: &str) -> (pos: Option<usize>)
    ensures
        match pos {
            Some(i) => is_first_at(names.deep_view(), name@, i as int),
            None => !names.deep_view().contains(name@),
        },
{
    let mut i: usize = 0;
    while i < names.len()
        invariant
            i <= names.len(),
            forall|j: int| 0 <= j < i ==> names.deep_view()[j] != name@,
        decreases names.len() - i,
    {
        if same_text(names[i].as_str(), name) {
            return Some(i);
        }
        i += 1;
    }
    None
}

/// Values keyed by names, kept in the order in which the names were first
/// inserted.
#[derive(Debug, Clone)]
pub struct NameMap<V> {
    entries: Vec<(String, V)>,
}

impl<V: DeepView> NameMap<V> {
    /// The names, in insertion order.
    pub closed spec fn names(&self) -> Seq<Seq<char>> {
        Seq::new(self.entries@.len(), |i: int| self.entries@[i].0@)
    }

    /// The values, each at the position of its name.
    pub closed spec fn values(&self) -> Seq<V::V> {
        Seq::new(self.entries@.len(), |i: int| self.entries@[i].1.deep_view())
    }

    /// No name occurs twice. Every map built by `new` and `insert` is well
    /// formed.
    pub open spec fn wf(&self) -> bool {
        self.names().no_duplicates()
    }

    /// The map as a function from names to values: a name stands for the
    /// value at its first position.
    pub open spec fn view(&self) -> Map<Seq<char>, V::V> {
        Map::new(
            |k: Seq<char>| self.names().contains(k),
            |k: Seq<char>| self.values()[first_index(self.names(), k)],
        )
    }

    /// There are as many values as names.
    pub proof fn lemma_same_len(&self)
        ensures
            self.names().len() == self.values().len(),
    {
    }

    /// An empty map.
    pub fn new() -> (m: Self)
        ensures
            m.wf(),
            m.names() == Seq::<Seq<char>>::empty(),
            m.values() == Seq::<V::V>::empty(),
            m@ == Map::<Seq<char>, V::V>::empty(),
    {
        let m = NameMap { entries: Vec::new() };
        assert(m.names() =~= Seq::<Seq<char>>::empty());
        assert(m.values() =~= Seq::<V::V>::empty());
        assert(m@ =~= Map::<Seq<char>, V::V>::empty());
        m
    }

    /// The number of names.
    pub fn len(&self) -> (n: usize)
        ensures
            n == self.names().len(),
            n == self.values().len(),
    {
        self.entries.len()
    }

    /// The name at position `i`.
    pub fn name_at(&self, i: usize) -> (name: &String)
        requires
            i < self.names().len(),
        ensures
            name@ == self.names()[i as int],
    {
        &self.entries[i].0
    }

    /// The value at position `i`.
    pub fn value_at(&self, i: usize) -> (value: &V)
        requires
            i < self.names().len(),
        ensures
            value.deep_view() == self.values()[i as int],
    {
        &self.entries[i].1
    }

    /// The first position of `name`, if the map holds it.
    pub fn position(&self, name: &str) -> (pos: Option<usize>)
        ensures
            match pos {
                Some(i) => is_first_at(self.names(), name@, i as int),
                None => !self.names().contains(name@),
            },
    {
        let mut i: usize = 0;
        while i < self.entries.len()
            invariant
                i <= self.entries.len(),
                forall|j: int| 0 <= j < i ==> self.names()[j] != name@,
            decreases self.entries.len() - i,
        {
            if same_text(self.entries[i].0.as_str(), name) {
                return Some(i);
            }
            i += 1;
        }
        None
    }

    /// The value stored under `name`, if any.
    pub fn get(&self, name: &str) -> (value: Option<&V>)
        ensures
            match value {
                Some(v) => self@.contains_key(name@) && v.deep_view() == self@[name@],
                None => !self@.contains_key(name@),
            },
    {
        match self.position(name) {
            Some(i) => {
                proof {
                    lemma_first_index(self.names(), name@);
                }
                Some(&self.entries[i].1)
            },
            None => None,
        }
    }

    /// Whether the map holds `name`.
    pub fn contains_key(&self, name: &str) -> (found: bool)
        ensures
            found == self@.contains_key(name@),
    {
        self.position(name).is_some()
    }

    /// Stores `value` under `name`. A name that is already present keeps its
    /// position and gets the new value; a new name goes to the end.
    pub fn insert(&mut self, name: String, value: V)
        ensures
            old(self).wf() ==> final(self).wf(),
            final(self)@ == old(self)@.insert(name@, value.deep_view()),
            old(self).names().contains(name@) ==> {
                &&& final(self).names() == old(self).names()
                &&& final(self).values() == old(self).values().update(
                    first_index(old(self).names(), name@),
                    value.deep_view(),
                )
            },
            !old(self).names().contains(name@) ==> {
                &&& final(self).names() == old(self).names().push(name@)
                &&& final(self).values() == old(self).values().push(value.deep_view())
            },
    {
        let ghost before = *self;
        let ghost key = name@;
        let ghost val = value.deep_view();
        match self.position(name.as_str()) {
            Some(i) => {
                proof {
                    lemma_first_index(before.names(), key);
                }
                self.entries.set(i, (name, value));
                proof {
                    assert(self.names() =~= before.names());
                    assert(self.values() =~= before.values().update(i as int, val));
                    assert forall|k: Seq<char>| self@.contains_key(k) implies #[trigger] self@[k]
                        == before@.insert(key, val)[k] by {
                        lemma_first_index(before.names(), k);
                    }
                    assert(self@ =~= before@.insert(key, val));
                }
            },
            None => {
                self.entries.push((name, value));
                proof {
                    let n = before.names().len() as int;
                    assert(self.names() =~= before.names().push(key));
                    assert(self.values() =~= before.values().push(val));
                    assert(before.wf() ==> self.names().no_duplicates());
                    assert forall|k: Seq<char>| self@.contains_key(k) <==> before@.insert(
                        key,
                        val,
                    ).contains_key(k) by {
                        if before.names().contains(k) {
                            let j = before.names().index_of(k);
                            assert(self.names()[j] == k);
                        }
                        if k == key {
                            assert(self.names()[n] == k);
                        }
                    }
                    assert forall|k: Seq<char>| self@.contains_key(k) implies #[trigger] self@[k]
                        == before@.insert(key, val)[k] by {
                        lemma_first_index(self.names(), k);
                        if k != key {
                            lemma_first_index(before.names(), k);
                            assert(is_first_at(self.names(), k, first_index(before.names(), k)));
                        } else {
                            assert(is_first_at(self.names(), k, n));
                        }
                    }
                    assert(self@ =~= before@.insert(key, val));
                }
            },
        }
    }
}

} // verus!
