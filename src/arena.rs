//! Storage slots keyed by address: at most one entry per address.
use crate::address::Key;
use vstd::prelude::*;

verus! {

/// Entries in insertion order; `keys[i]` is the address of `vals[i]`.
pub struct Arena<T> {
    pub keys: Vec<Key>,
    pub vals: Vec<T>,
}

impl<T> Arena<T> {
    /// One value per key, and no address twice.
    pub open spec fn wf(&self) -> bool {
        &&& self.keys@.len() == self.vals@.len()
        &&& forall|i: int, j: int|
            0 <= i < self.keys@.len() && 0 <= j < self.keys@.len() && i != j
                ==> #[trigger] self.keys@[i]@ != #[trigger] self.keys@[j]@
    }

    pub open spec fn has(&self, k: Seq<u8>) -> bool {
        exists|i: int| 0 <= i < self.keys@.len() && #[trigger] self.keys@[i]@ == k
    }

    pub open spec fn index_of(&self, k: Seq<u8>) -> int {
        choose|i: int| 0 <= i < self.keys@.len() && #[trigger] self.keys@[i]@ == k
    }

    /// What is stored, by address.
    pub open spec fn view(&self) -> Map<Seq<u8>, T> {
        Map::new(|k: Seq<u8>| self.has(k), |k: Seq<u8>| self.vals@[self.index_of(k)])
    }

    pub proof fn lemma_at(&self, i: int)
        requires
            self.wf(),
            0 <= i < self.keys@.len(),
        ensures
            self.view().contains_key(self.keys@[i]@),
            self.view()[self.keys@[i]@] == self.vals@[i],
    {
        let k = self.keys@[i]@;
        assert(self.has(k));
        let j = self.index_of(k);
        assert(self.keys@[j]@ == k);
    }

    pub fn new() -> (r: Arena<T>)
        ensures
            r.wf(),
            r.view() == Map::<Seq<u8>, T>::empty(),
    {
        let r = Arena { keys: Vec::new(), vals: Vec::new() };
        assert(r.view() =~= Map::<Seq<u8>, T>::empty());
        r
    }

    /// The slot of `k`, if one is stored.
    pub fn find(&self, k: &Key) -> (r: Option<usize>)
        requires
            self.wf(),
        ensures
            r is None ==> !self.view().contains_key(k@),
            r matches Some(i) ==> i < self.keys@.len() && self.keys@[i as int]@ == k@
                && self.view().contains_key(k@) && self.view()[k@] == self.vals@[i as int],
    {
        let mut i: usize = 0;
        while i < self.keys.len()
            invariant
                self.wf(),
                0 <= i <= self.keys@.len(),
                forall|j: int| 0 <= j < i ==> #[trigger] self.keys@[j]@ != k@,
            decreases self.keys@.len() - i,
        {
            if self.keys[i].same(k) {
                proof {
                    self.lemma_at(i as int);
                }
                return Some(i);
            }
            i = i + 1;
        }
        None
    }

    pub fn get(&self, i: usize) -> (r: &T)
        requires
            self.wf(),
            i < self.keys@.len(),
        ensures
            *r == self.vals@[i as int],
            self.view()[self.keys@[i as int]@] == *r,
    {
        proof {
            self.lemma_at(i as int);
        }
        &self.vals[i]
    }

    /// Stores `v` at a fresh address.
    pub fn insert(&mut self, k: Key, v: T)
        requires
            old(self).wf(),
            !old(self).view().contains_key(k@),
        ensures
            final(self).wf(),
            final(self).view() == old(self).view().insert(k@, v),
    {
        let ghost pre = *self;
        let ghost target = pre.view().insert(k@, v);
        self.keys.push(k);
        self.vals.push(v);
        let ghost n = pre.keys@.len() as int;
        assert forall|i: int, j: int|
            0 <= i < self.keys@.len() && 0 <= j < self.keys@.len() && i != j
                implies #[trigger] self.keys@[i]@ != #[trigger] self.keys@[j]@ by {
            if i == n {
                assert(!pre.has(k@));
                assert(pre.keys@[j] == self.keys@[j]);
            } else if j == n {
                assert(!pre.has(k@));
                assert(pre.keys@[i] == self.keys@[i]);
            } else {
                assert(pre.keys@[i] == self.keys@[i]);
                assert(pre.keys@[j] == self.keys@[j]);
            }
        }
        assert forall|key: Seq<u8>| #[trigger] self.view().contains_key(key) == target.contains_key(
            key,
        ) by {
            if self.has(key) {
                let i = choose|i: int| 0 <= i < self.keys@.len() && #[trigger] self.keys@[i]@ == key;
                if i < n {
                    assert(pre.keys@[i] == self.keys@[i]);
                    assert(pre.has(key));
                }
            }
            if pre.has(key) {
                let i = choose|i: int| 0 <= i < pre.keys@.len() && #[trigger] pre.keys@[i]@ == key;
                assert(pre.keys@[i] == self.keys@[i]);
                assert(self.has(key));
            }
            if key == k@ {
                assert(self.keys@[n]@ == key);
                assert(self.has(key));
            }
        }
        assert forall|key: Seq<u8>| #[trigger] self.view().contains_key(key) implies self.view()[key]
            == target[key] by {
            let i = choose|i: int| 0 <= i < self.keys@.len() && #[trigger] self.keys@[i]@ == key;
            self.lemma_at(i);
            if i < n {
                assert(pre.keys@[i] == self.keys@[i]);
                assert(pre.vals@[i] == self.vals@[i]);
                pre.lemma_at(i);
            }
        }
        assert(self.view() =~= target);
    }

    /// Replaces the value in slot `i`.
    pub fn set(&mut self, i: usize, v: T)
        requires
            old(self).wf(),
            i < old(self).keys@.len(),
        ensures
            final(self).wf(),
            final(self).keys@ == old(self).keys@,
            final(self).view() == old(self).view().insert(old(self).keys@[i as int]@, v),
    {
        let ghost pre = *self;
        let ghost k = pre.keys@[i as int]@;
        let ghost target = pre.view().insert(k, v);
        self.vals.set(i, v);
        assert forall|key: Seq<u8>| #[trigger] self.view().contains_key(key) == target.contains_key(
            key,
        ) by {
            if key == k {
                assert(self.keys@[i as int]@ == key);
                assert(self.has(key));
            }
            if pre.has(key) {
                let j = choose|j: int| 0 <= j < pre.keys@.len() && #[trigger] pre.keys@[j]@ == key;
                assert(self.keys@[j]@ == key);
                assert(self.has(key));
            }
        }
        assert forall|key: Seq<u8>| #[trigger] self.view().contains_key(key) implies self.view()[key]
            == target[key] by {
            let j = choose|j: int| 0 <= j < self.keys@.len() && #[trigger] self.keys@[j]@ == key;
            self.lemma_at(j);
            if j != i {
                pre.lemma_at(j);
            }
        }
        assert(self.view() =~= target);
    }

    /// Removes the entry in slot `i`.
    pub fn remove(&mut self, i: usize) -> (r: T)
        requires
            old(self).wf(),
            i < old(self).keys@.len(),
        ensures
            final(self).wf(),
            r == old(self).vals@[i as int],
            final(self).view() == old(self).view().remove(old(self).keys@[i as int]@),
    {
        let ghost pre = *self;
        let ghost k = pre.keys@[i as int]@;
        self.keys.remove(i);
        let r = self.vals.remove(i);
        let ghost old_index = |j: int|
            if j < i {
                j
            } else {
                j + 1
            };
        assert forall|j: int| 0 <= j < self.keys@.len() implies self.keys@[j] == pre.keys@[old_index(
            j,
        )] && self.vals@[j] == pre.vals@[old_index(j)] by {}
        assert forall|a: int, b: int|
            0 <= a < self.keys@.len() && 0 <= b < self.keys@.len() && a != b
                implies #[trigger] self.keys@[a]@ != #[trigger] self.keys@[b]@ by {
            assert(self.keys@[a] == pre.keys@[old_index(a)]);
            assert(self.keys@[b] == pre.keys@[old_index(b)]);
        }
        let ghost target = pre.view().remove(k);
        assert forall|key: Seq<u8>| #[trigger] self.view().contains_key(key) == target.contains_key(
            key,
        ) by {
            if self.has(key) {
                let j = choose|j: int| 0 <= j < self.keys@.len() && #[trigger] self.keys@[j]@ == key;
                assert(self.keys@[j] == pre.keys@[old_index(j)]);
                assert(pre.has(key));
                assert(old_index(j) != i);
            }
            if pre.has(key) && key != k {
                let j = choose|j: int| 0 <= j < pre.keys@.len() && #[trigger] pre.keys@[j]@ == key;
                assert(j != i);
                let nj = if j < i { j } else { j - 1 };
                assert(self.keys@[nj] == pre.keys@[j]);
                assert(self.has(key));
            }
        }
        assert forall|key: Seq<u8>| #[trigger] self.view().contains_key(key) implies self.view()[key]
            == target[key] by {
            let j = choose|j: int| 0 <= j < self.keys@.len() && #[trigger] self.keys@[j]@ == key;
            self.lemma_at(j);
            assert(self.keys@[j] == pre.keys@[old_index(j)]);
            pre.lemma_at(old_index(j));
        }
        assert(self.view() =~= target);
        r
    }
}

} // verus!
