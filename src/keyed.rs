//! An insertion-ordered list of entries keyed by unique strings.

use vstd::prelude::*;

verus! {

/// Entries keyed by strings, at most one entry per key, kept in the order
/// in which their keys first arrived.
pub struct KeyedList<V> {
    pub entries: Vec<(String, V)>,
}

impl<V> View for KeyedList<V> {
    type V = Map<Seq<char>, V>;

    open spec fn view(&self) -> Map<Seq<char>, V> {
        Map::new(|k: Seq<char>| self.has(k), |k: Seq<char>| self.entries@[self.index_of(k)].1)
    }
}

impl<V> KeyedList<V> {
    pub open spec fn key_at(&self, i: int) -> Seq<char> {
        self.entries@[i].0@
    }

    /// Keys seen in order, as abstract strings.
    pub open spec fn key_seq(&self) -> Seq<Seq<char>> {
        self.entries@.map_values(|e: (String, V)| e.0@)
    }

    pub open spec fn wf(&self) -> bool {
        forall|i: int, j: int|
            0 <= i < self.entries.len() && 0 <= j < self.entries.len() && i != j
                ==> self.key_at(i) != self.key_at(j)
    }

    pub open spec fn has(&self, k: Seq<char>) -> bool {
        exists|i: int| 0 <= i < self.entries.len() && self.key_at(i) == k
    }

    pub open spec fn index_of(&self, k: Seq<char>) -> int {
        choose|i: int| 0 <= i < self.entries.len() && self.key_at(i) == k
    }

    proof fn lemma_index_of(&self, i: int)
        requires
            self.wf(),
            0 <= i < self.entries.len(),
        ensures
            self.has(self.key_at(i)),
            self.index_of(self.key_at(i)) == i,
            self@.contains_key(self.key_at(i)),
            self@[self.key_at(i)] == self.entries@[i].1,
    {
        let k = self.key_at(i);
        assert(self.has(k));
        let j = self.index_of(k);
        assert(self.key_at(j) == k);
    }

    pub fn new() -> (r: Self)
        ensures
            r.wf(),
            r@ == Map::<Seq<char>, V>::empty(),
            r.entries@.len() == 0,
    {
        let r = KeyedList { entries: Vec::new() };
        assert(r@ =~= Map::<Seq<char>, V>::empty());
        r
    }

    pub fn len(&self) -> (r: usize)
        ensures
            r == self.entries@.len(),
    {
        self.entries.len()
    }

    /// Position of the entry with key `k`, if any.
    pub fn find(&self, k: &str) -> (r: Option<usize>)
        requires
            self.wf(),
        ensures
            r is None <==> !self@.contains_key(k@),
            r matches Some(i) ==> i < self.entries@.len() && self.key_at(i as int) == k@
                && self.index_of(k@) == i,
    {
        let key = k.to_owned();
        let mut i: usize = 0;
        while i < self.entries.len()
            invariant
                self.wf(),
                i <= self.entries@.len(),
                key@ == k@,
                forall|j: int| 0 <= j < i ==> self.key_at(j) != k@,
            decreases self.entries@.len() - i,
        {
            if self.entries[i].0 == key {
                proof {
                    self.lemma_index_of(i as int);
                }
                return Some(i);
            }
            i = i + 1;
        }
        None
    }

    pub fn contains(&self, k: &str) -> (r: bool)
        requires
            self.wf(),
        ensures
            r == self@.contains_key(k@),
    {
        self.find(k).is_some()
    }

    /// The value stored under `k`, if any.
    pub fn get(&self, k: &str) -> (r: Option<&V>)
        requires
            self.wf(),
        ensures
            r is None <==> !self@.contains_key(k@),
            r matches Some(v) ==> self@.contains_key(k@) && *v == self@[k@],
    {
        match self.find(k) {
            Some(i) => Some(&self.entries[i].1),
            None => None,
        }
    }

    /// Stores `v` under `k`, replacing the value already stored there.
    /// A new key goes to the end; a known key keeps its place.
    pub fn insert(&mut self, k: String, v: V)
        requires
            old(self).wf(),
        ensures
            final(self).wf(),
            final(self)@ == old(self)@.insert(k@, v),
            old(self)@.contains_key(k@) ==> final(self).key_seq() == old(self).key_seq(),
            !old(self)@.contains_key(k@) ==> final(self).key_seq() == old(self).key_seq().push(k@),
    {
        let ghost pre = *self;
        match self.find(k.as_str()) {
            Some(i) => {
                self.entries.set(i, (k, v));
                proof {
                    assert forall|j: int| 0 <= j < self.entries.len() implies #[trigger] self.key_at(j) == pre.key_at(j) by {}
                    assert(self.wf());
                    assert forall|kk: Seq<char>| #[trigger] self.has(kk) == pre.has(kk) by {
                        if pre.has(kk) {
                            let j = pre.index_of(kk);
                            assert(self.key_at(j) == kk);
                        }
                        if self.has(kk) {
                            let j = self.index_of(kk);
                            assert(pre.key_at(j) == kk);
                        }
                    }
                    assert forall|kk: Seq<char>| self.has(kk) implies #[trigger] self@[kk] == pre@.insert(k@, v)[kk] by {
                        let j = self.index_of(kk);
                        self.lemma_index_of(j);
                        if kk != k@ {
                            pre.lemma_index_of(j);
                        } else {
                            self.lemma_index_of(i as int);
                        }
                    }
                    assert(self@ =~= pre@.insert(k@, v));
                    assert(self.key_seq() =~= pre.key_seq());
                }
            },
            None => {
                self.entries.push((k, v));
                proof {
                    let n = pre.entries@.len() as int;
                    assert(self.key_at(n) == k@);
                    assert forall|j: int| 0 <= j < n implies #[trigger] self.key_at(j) == pre.key_at(j) by {}
                    assert forall|j: int| 0 <= j < n implies #[trigger] pre.key_at(j) != k@ by {
                        if pre.key_at(j) == k@ {
                            assert(pre.has(k@));
                        }
                    }
                    assert(self.wf());
                    assert forall|kk: Seq<char>| #[trigger] self.has(kk) == (pre.has(kk) || kk == k@) by {
                        if pre.has(kk) {
                            let j = pre.index_of(kk);
                            assert(self.key_at(j) == kk);
                        }
                        if self.has(kk) && kk != k@ {
                            let j = self.index_of(kk);
                            assert(pre.key_at(j) == kk);
                        }
                    }
                    assert forall|kk: Seq<char>| self.has(kk) implies #[trigger] self@[kk] == pre@.insert(k@, v)[kk] by {
                        let j = self.index_of(kk);
                        self.lemma_index_of(j);
                        if kk != k@ {
                            pre.lemma_index_of(j);
                        } else {
                            self.lemma_index_of(n);
                        }
                    }
                    assert(self@ =~= pre@.insert(k@, v));
                    assert(self.key_seq() =~= pre.key_seq().push(k@));
                }
            },
        }
    }

    /// Drops the entry stored under `k`, if any; the others keep their order.
    pub fn remove(&mut self, k: &str)
        requires
            old(self).wf(),
        ensures
            final(self).wf(),
            final(self)@ == old(self)@.remove(k@),
    {
        let ghost pre = *self;
        match self.find(k) {
            Some(i) => {
                let _ = self.entries.remove(i);
                proof {
                    let n = self.entries@.len() as int;
                    assert forall|j: int| 0 <= j < n implies #[trigger] self.key_at(j)
                        == pre.key_at(if j < i { j } else { j + 1 }) by {}
                    assert(self.wf());
                    assert forall|kk: Seq<char>| #[trigger] self.has(kk) == (pre.has(kk) && kk != k@) by {
                        if pre.has(kk) && kk != k@ {
                            let j = pre.index_of(kk);
                            if j < i {
                                assert(self.key_at(j) == kk);
                            } else {
                                assert(j != i);
                                assert(self.key_at(j - 1) == kk);
                            }
                        }
                        if self.has(kk) {
                            let j = self.index_of(kk);
                            let jj = if j < i { j } else { j + 1 };
                            assert(pre.key_at(jj) == kk);
                            assert(jj != i);
                        }
                    }
                    assert forall|kk: Seq<char>| self.has(kk) implies #[trigger] self@[kk] == pre@[kk] by {
                        let j = self.index_of(kk);
                        self.lemma_index_of(j);
                        pre.lemma_index_of(if j < i { j } else { j + 1 });
                    }
                    assert(self@ =~= pre@.remove(k@));
                }
            },
            None => {
                assert(self@ =~= pre@.remove(k@));
            },
        }
    }
}

} // verus!
