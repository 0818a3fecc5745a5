use vstd::prelude::*;
use crate::types::{Hash32, hash_eq};

verus! {

/// A commitment-keyed table: a list of entries whose keys are pairwise
/// distinct, seen as a finite map from the key's bytes to the value.
///
/// It is only the storage shape; the policies (reject a duplicate, or
/// overwrite it) belong to the registries built on it.
pub struct CommitmentMap<V> {
    entries: Vec<(Hash32, V)>,
    table: Ghost<Map<Seq<u8>, V>>,
}

impl<V> View for CommitmentMap<V> {
    type V = Map<Seq<u8>, V>;

    closed spec fn view(&self) -> Map<Seq<u8>, V> {
        self.table@
    }
}

impl<V> CommitmentMap<V> {
    /// The entry list and the map agree, and no key occurs twice.
    pub closed spec fn wf(&self) -> bool {
        &&& forall|i: int|
            0 <= i < self.entries@.len() ==> self.table@.contains_key(#[trigger] self.entries@[i].0@)
                && self.table@[self.entries@[i].0@] == self.entries@[i].1
        &&& forall|k: Seq<u8>| #[trigger]
            self.table@.contains_key(k) ==> exists|i: int|
                0 <= i < self.entries@.len() && #[trigger] self.entries@[i].0@ == k
        &&& forall|i: int, j: int|
            0 <= i < j < self.entries@.len() ==> #[trigger] self.entries@[i].0@
                != #[trigger] self.entries@[j].0@
    }

    /// An empty table.
    pub fn new() -> (r: CommitmentMap<V>)
        ensures
            r.wf(),
            r@ == Map::<Seq<u8>, V>::empty(),
    {
        CommitmentMap { entries: Vec::new(), table: Ghost(Map::empty()) }
    }

    /// Position of the entry whose key has the bytes of `key`.
    fn find(&self, key: &Hash32) -> (r: Option<usize>)
        requires
            self.wf(),
        ensures
            match r {
                Some(i) => i < self.entries@.len() && self.entries@[i as int].0@ == key@,
                None => !self@.contains_key(key@),
            },
    {
        let mut i: usize = 0;
        while i < self.entries.len()
            invariant
                0 <= i <= self.entries@.len(),
                forall|j: int| 0 <= j < i ==> self.entries@[j].0@ != key@,
            decreases self.entries@.len() - i,
        {
            if hash_eq(&self.entries[i].0, key) {
                return Some(i);
            }
            i = i + 1;
        }
        None
    }

    /// The value stored under `key`, if any.
    pub fn get(&self, key: &Hash32) -> (r: Option<&V>)
        requires
            self.wf(),
        ensures
            match r {
                Some(v) => self@.contains_key(key@) && *v == self@[key@],
                None => !self@.contains_key(key@),
            },
    {
        match self.find(key) {
            Some(i) => Some(&self.entries[i].1),
            None => None,
        }
    }

    /// Stores `value` under `key`, replacing any earlier value.
    pub fn insert(&mut self, key: Hash32, value: V)
        requires
            old(self).wf(),
        ensures
            final(self).wf(),
            final(self)@ == old(self)@.insert(key@, value),
    {
        let ghost old_entries = self.entries@;
        let ghost new_table = self.table@.insert(key@, value);
        match self.find(&key) {
            Some(i) => {
                self.entries.set(i, (key, value));
                assert forall|j: int| 0 <= j < self.entries@.len() implies new_table.contains_key(
                    #[trigger] self.entries@[j].0@) && new_table[self.entries@[j].0@]
                    == self.entries@[j].1 by {
                    if j != i {
                        assert(old_entries[j].0@ != old_entries[i as int].0@);
                    }
                }
                assert forall|k: Seq<u8>| #[trigger] new_table.contains_key(k) implies exists|j: int|
                    0 <= j < self.entries@.len() && #[trigger] self.entries@[j].0@ == k by {
                    if k != key@ {
                        let j = choose|j: int|
                            0 <= j < old_entries.len() && #[trigger] old_entries[j].0@ == k;
                        assert(self.entries@[j].0@ == k);
                    } else {
                        assert(self.entries@[i as int].0@ == k);
                    }
                }
                assert forall|a: int, b: int|
                    0 <= a < b < self.entries@.len() implies #[trigger] self.entries@[a].0@
                    != #[trigger] self.entries@[b].0@ by {
                    assert(old_entries[a].0@ != old_entries[b].0@);
                }
            },
            None => {
                self.entries.push((key, value));
                assert forall|j: int| 0 <= j < self.entries@.len() implies new_table.contains_key(
                    #[trigger] self.entries@[j].0@) && new_table[self.entries@[j].0@]
                    == self.entries@[j].1 by {
                    if j < old_entries.len() {
                        assert(self.table@.contains_key(old_entries[j].0@));
                    }
                }
                assert forall|k: Seq<u8>| #[trigger] new_table.contains_key(k) implies exists|j: int|
                    0 <= j < self.entries@.len() && #[trigger] self.entries@[j].0@ == k by {
                    if k != key@ {
                        let j = choose|j: int|
                            0 <= j < old_entries.len() && #[trigger] old_entries[j].0@ == k;
                        assert(self.entries@[j].0@ == k);
                    } else {
                        assert(self.entries@[old_entries.len() as int].0@ == k);
                    }
                }
                assert forall|a: int, b: int|
                    0 <= a < b < self.entries@.len() implies #[trigger] self.entries@[a].0@
                    != #[trigger] self.entries@[b].0@ by {
                    if b < old_entries.len() {
                        assert(old_entries[a].0@ != old_entries[b].0@);
                    } else {
                        assert(self.table@.contains_key(old_entries[a].0@));
                    }
                }
            },
        }
        self.table = Ghost(new_table);
        assert(self.wf());
    }
}

} // verus!
