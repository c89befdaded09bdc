//! A map from names (strings) to values, kept as a vector of entries.
use vstd::prelude::*;
use crate::text::str_eq;

verus! {

/// A finite map keyed by name. Each name occurs at most once; the abstract
/// content is a `Map` from the name's characters to its value.
pub struct NameMap<V> {
    entries: Vec<(String, V)>,
    contents: Ghost<Map<Seq<char>, V>>,
}

impl<V> NameMap<V> {
    /// The map's content.
    pub closed spec fn view_map(&self) -> Map<Seq<char>, V> {
        self.contents@
    }

    /// Every name occurs once, and the entries hold exactly the content.
    pub closed spec fn wf(&self) -> bool {
        &&& forall|i: int, j: int|
            0 <= i < j < self.entries@.len() ==> #[trigger] self.entries@[i].0@
                != #[trigger] self.entries@[j].0@
        &&& forall|i: int|
            0 <= i < self.entries@.len() ==> {
                &&& self.contents@.contains_key(#[trigger] self.entries@[i].0@)
                &&& self.contents@[self.entries@[i].0@] == self.entries@[i].1
            }
        &&& forall|k: Seq<char>|
            #[trigger] self.contents@.contains_key(k) ==> exists|i: int|
                0 <= i < self.entries@.len() && #[trigger] self.entries@[i].0@ == k
    }

    /// The names in the order the map holds them.
    pub closed spec fn names(&self) -> Seq<Seq<char>> {
        self.entries@.map_values(|e: (String, V)| e.0@)
    }

    /// The names are exactly the map's domain, each once.
    pub proof fn lemma_names(&self)
        requires
            self.wf(),
        ensures
            self.names().no_duplicates(),
            forall|k: Seq<char>| self.view_map().contains_key(k) <==> self.names().contains(k),
    {
        assert forall|k: Seq<char>| self.view_map().contains_key(k) <==> self.names().contains(k) by {
            if self.view_map().contains_key(k) {
                let i = choose|i: int| 0 <= i < self.entries@.len() && #[trigger] self.entries@[i].0@ == k;
                assert(self.names()[i] == k);
            }
            if self.names().contains(k) {
                let i = choose|i: int| 0 <= i < self.names().len() && self.names()[i] == k;
                assert(self.entries@[i].0@ == k);
            }
        }
        assert forall|i: int, j: int| 0 <= i < self.names().len() && 0 <= j < self.names().len() && i != j implies self.names()[i] != self.names()[j] by {
            if i < j {
                assert(self.entries@[i].0@ != self.entries@[j].0@);
            } else {
                assert(self.entries@[j].0@ != self.entries@[i].0@);
            }
        }
    }

    /// An empty map.
    pub fn new() -> (m: Self)
        ensures
            m.wf(),
            m.view_map() == Map::<Seq<char>, V>::empty(),
    {
        NameMap { entries: Vec::new(), contents: Ghost(Map::empty()) }
    }

    /// The number of names in the map.
    pub fn len(&self) -> (n: usize)
        requires
            self.wf(),
        ensures
            n == self.view_map().len(),
    {
        proof {
            self.lemma_names();
            self.names().unique_seq_to_set();
            assert(self.names().to_set() =~= self.view_map().dom());
        }
        self.entries.len()
    }

    fn position(&self, name: &str) -> (r: Option<usize>)
        requires
            self.wf(),
        ensures
            r matches Some(i) ==> i < self.entries@.len() && self.entries@[i as int].0@ == name@,
            r is None ==> !self.view_map().contains_key(name@),
    {
        let mut i: usize = 0;
        while i < self.entries.len()
            invariant
                i <= self.entries@.len(),
                forall|j: int| 0 <= j < i ==> self.entries@[j].0@ != name@,
            decreases self.entries.len() - i,
        {
            if str_eq(self.entries[i].0.as_str(), name) {
                return Some(i);
            }
            i = i + 1;
        }
        None
    }

    /// Whether `name` is in the map.
    pub fn contains_key(&self, name: &str) -> (r: bool)
        requires
            self.wf(),
        ensures
            r == self.view_map().contains_key(name@),
    {
        self.position(name).is_some()
    }

    /// The value stored under `name`.
    pub fn get(&self, name: &str) -> (r: Option<&V>)
        requires
            self.wf(),
        ensures
            r matches Some(v) ==> self.view_map().contains_key(name@) && *v == self.view_map()[name@],
            r is None ==> !self.view_map().contains_key(name@),
    {
        match self.position(name) {
            Some(i) => Some(&self.entries[i].1),
            None => None,
        }
    }

    /// Stores `value` under `name`, replacing any value stored there.
    pub fn insert(&mut self, name: String, value: V)
        requires
            old(self).wf(),
        ensures
            final(self).wf(),
            final(self).view_map() == old(self).view_map().insert(name@, value),
    {
        let ghost new_map = self.contents@.insert(name@, value);
        match self.position(name.as_str()) {
            Some(i) => {
                let ghost k = name@;
                let ghost old_entries = self.entries@;
                self.entries.set(i, (name, value));
                self.contents = Ghost(new_map);
                assert forall|k2: Seq<char>| #[trigger] self.contents@.contains_key(k2) implies exists|j: int|
                    0 <= j < self.entries@.len() && #[trigger] self.entries@[j].0@ == k2 by {
                    if k2 != k {
                        let j = choose|j: int| 0 <= j < old_entries.len() && #[trigger] old_entries[j].0@ == k2;
                        assert(self.entries@[j].0@ == k2);
                    } else {
                        assert(self.entries@[i as int].0@ == k2);
                    }
                }
            },
            None => {
                let ghost old_entries = self.entries@;
                self.entries.push((name, value));
                self.contents = Ghost(new_map);
                assert forall|k2: Seq<char>| #[trigger] self.contents@.contains_key(k2) implies exists|j: int|
                    0 <= j < self.entries@.len() && #[trigger] self.entries@[j].0@ == k2 by {
                    if k2 != self.entries@[old_entries.len() as int].0@ {
                        let j = choose|j: int| 0 <= j < old_entries.len() && #[trigger] old_entries[j].0@ == k2;
                        assert(self.entries@[j].0@ == k2);
                    }
                }
            },
        }
    }

    /// Removes `name` from the map, returning the value stored there.
    pub fn remove(&mut self, name: &str) -> (r: Option<V>)
        requires
            old(self).wf(),
        ensures
            final(self).wf(),
            final(self).view_map() == old(self).view_map().remove(name@),
            r matches Some(v) ==> old(self).view_map().contains_key(name@) && v == old(self).view_map()[name@],
            r is None ==> !old(self).view_map().contains_key(name@),
    {
        match self.position(name) {
            Some(i) => {
                let ghost old_entries = self.entries@;
                let ghost new_map = self.contents@.remove(name@);
                let (_, v) = self.entries.remove(i);
                self.contents = Ghost(new_map);
                assert forall|a: int, b: int|
                    0 <= a < b < self.entries@.len() implies #[trigger] self.entries@[a].0@
                        != #[trigger] self.entries@[b].0@ by {
                    let a0 = if a < i { a } else { a + 1 };
                    let b0 = if b < i { b } else { b + 1 };
                    assert(self.entries@[a] == old_entries[a0]);
                    assert(self.entries@[b] == old_entries[b0]);
                }
                assert forall|a: int| 0 <= a < self.entries@.len() implies {
                    &&& self.contents@.contains_key(#[trigger] self.entries@[a].0@)
                    &&& self.contents@[self.entries@[a].0@] == self.entries@[a].1
                } by {
                    let a0 = if a < i { a } else { a + 1 };
                    assert(self.entries@[a] == old_entries[a0]);
                    assert(old_entries[a0].0@ != old_entries[i as int].0@);
                }
                assert forall|k2: Seq<char>| #[trigger] self.contents@.contains_key(k2) implies exists|j: int|
                    0 <= j < self.entries@.len() && #[trigger] self.entries@[j].0@ == k2 by {
                    let j = choose|j: int| 0 <= j < old_entries.len() && #[trigger] old_entries[j].0@ == k2;
                    assert(j != i);
                    let j2 = if j < i { j } else { j - 1 };
                    assert(self.entries@[j2] == old_entries[j]);
                }
                Some(v)
            },
            None => {
                assert(self.contents@.remove(name@) =~= self.contents@);
                None
            },
        }
    }

    /// The names in the map.
    pub fn keys(&self) -> (ks: Vec<String>)
        requires
            self.wf(),
        ensures
            ks@.map_values(|s: String| s@) == self.names(),
    {
        let mut ks: Vec<String> = Vec::new();
        let mut i: usize = 0;
        while i < self.entries.len()
            invariant
                i <= self.entries@.len(),
                ks@.len() == i,
                forall|j: int| 0 <= j < i ==> #[trigger] ks@[j]@ == self.entries@[j].0@,
            decreases self.entries.len() - i,
        {
            ks.push(self.entries[i].0.clone());
            i = i + 1;
        }
        assert(ks@.map_values(|s: String| s@) =~= self.names());
        ks
    }
}

} // verus!
