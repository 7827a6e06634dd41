use vstd::prelude::*;

use crate::shape_data::FaceKey;

verus! {

/// A map keyed by face keys, kept as a list of entries with distinct keys.
pub struct FaceMap<V> {
    entries: Vec<(FaceKey, V)>,
}

impl<V> FaceMap<V> {
    /// No key is listed twice.
    pub closed spec fn wf(self) -> bool {
        forall|i: int, j: int| 0 <= i < j < self.entries@.len() ==> #[trigger] self.entries@[i].0 != #[trigger] self.entries@[j].0
    }

    pub closed spec fn has(self, k: FaceKey) -> bool {
        exists|i: int| 0 <= i < self.entries@.len() && #[trigger] self.entries@[i].0 == k
    }

    pub closed spec fn index_of(self, k: FaceKey) -> int {
        choose|i: int| 0 <= i < self.entries@.len() && #[trigger] self.entries@[i].0 == k
    }

    /// The keys, in the order they were added.
    pub closed spec fn keys(self) -> Seq<FaceKey> {
        self.entries@.map_values(|e: (FaceKey, V)| e.0)
    }

    pub closed spec fn map(self) -> Map<FaceKey, V> {
        Map::new(|k: FaceKey| self.has(k), |k: FaceKey| self.entries@[self.index_of(k)].1)
    }
}

impl<V> View for FaceMap<V> {
    type V = Map<FaceKey, V>;

    open spec fn view(&self) -> Map<FaceKey, V> {
        self.map()
    }
}

impl<V> FaceMap<V> {
    proof fn lemma_index(self, i: int)
        requires
            self.wf(),
            0 <= i < self.entries@.len(),
        ensures
            self.has(self.entries@[i].0),
            self.index_of(self.entries@[i].0) == i,
            self@.contains_key(self.entries@[i].0),
            self@[self.entries@[i].0] == self.entries@[i].1,
    {
        let k = self.entries@[i].0;
        assert(self.has(k));
        let j = self.index_of(k);
        if j != i {
            if i < j {
                assert(self.entries@[i].0 != self.entries@[j].0);
            } else {
                assert(self.entries@[j].0 != self.entries@[i].0);
            }
        }
    }

    /// The keys listed are those of the map, without repetition.
    pub proof fn lemma_keys(self)
        requires
            self.wf(),
        ensures
            self.keys().no_duplicates(),
            forall|k: FaceKey| self@.contains_key(k) <==> self.keys().contains(k),
            self.keys().len() == self@.dom().len(),
            self@.dom().finite(),
    {
        assert forall|k: FaceKey| self@.contains_key(k) <==> self.keys().contains(k) by {
            if self@.contains_key(k) {
                let i = self.index_of(k);
                assert(self.keys()[i] == k);
            }
            if self.keys().contains(k) {
                let i = choose|i: int| 0 <= i < self.keys().len() && self.keys()[i] == k;
                assert(self.entries@[i].0 == k);
            }
        }
        assert(self.keys().no_duplicates()) by {
            assert forall|i: int, j: int| 0 <= i < self.keys().len() && 0 <= j < self.keys().len() && i != j implies self.keys()[i]
                != self.keys()[j] by {
                if i < j {
                    assert(self.entries@[i].0 != self.entries@[j].0);
                } else {
                    assert(self.entries@[j].0 != self.entries@[i].0);
                }
            }
        }
        assert(self@.dom() =~= self.keys().to_set());
        self.keys().unique_seq_to_set();
    }

    pub fn new() -> (m: Self)
        ensures
            m.wf(),
            m@ == Map::<FaceKey, V>::empty(),
    {
        let m = FaceMap { entries: Vec::new() };
        assert(m@ =~= Map::<FaceKey, V>::empty());
        m
    }

    fn find(&self, k: &FaceKey) -> (r: Option<usize>)
        requires
            self.wf(),
        ensures
            match r {
                Some(i) => i < self.entries@.len() && self.entries@[i as int].0 == *k && self.index_of(*k) == i,
                None => !self.has(*k),
            },
    {
        let mut i: usize = 0;
        while i < self.entries.len()
            invariant
                self.wf(),
                i <= self.entries@.len(),
                forall|j: int| 0 <= j < i ==> self.entries@[j].0 != *k,
            decreases self.entries@.len() - i,
        {
            if self.entries[i].0 == *k {
                proof {
                    self.lemma_index(i as int);
                }
                return Some(i);
            }
            i = i + 1;
        }
        None
    }

    pub fn contains_key(&self, k: &FaceKey) -> (r: bool)
        requires
            self.wf(),
        ensures
            r == self@.contains_key(*k),
    {
        self.find(k).is_some()
    }

    pub fn get(&self, k: &FaceKey) -> (r: Option<&V>)
        requires
            self.wf(),
        ensures
            match r {
                Some(v) => self@.contains_key(*k) && self@[*k] == *v,
                None => !self@.contains_key(*k),
            },
    {
        match self.find(k) {
            Some(i) => Some(&self.entries[i].1),
            None => None,
        }
    }

    /// Sets the value of `k`.
    pub fn insert(&mut self, k: FaceKey, v: V)
        requires
            old(self).wf(),
        ensures
            final(self).wf(),
            final(self)@ == old(self)@.insert(k, v),
            old(self)@.contains_key(k) ==> final(self).keys() == old(self).keys(),
            !old(self)@.contains_key(k) ==> final(self).keys() == old(self).keys().push(k),
    {
        let ghost old_self = *self;
        match self.find(&k) {
            Some(i) => {
                self.entries.set(i, (k, v));
                proof {
                    assert(self.keys() =~= old_self.keys());
                    assert forall|a: int| 0 <= a < self.entries@.len() implies #[trigger] self.entries@[a].0 == old_self.entries@[a].0 by {
                        assert(self.keys()[a] == old_self.keys()[a]);
                    }
                    assert(self.wf());
                    assert forall|x: FaceKey| #[trigger] self@.contains_key(x) == old_self@.insert(k, v).contains_key(x)
                        && (self@.contains_key(x) ==> self@[x] == old_self@.insert(k, v)[x]) by {
                        if self.has(x) {
                            let j = self.index_of(x);
                            self.lemma_index(j);
                            assert(old_self.entries@[j].0 == x);
                            old_self.lemma_index(j);
                            if x == k {
                                self.lemma_index(i as int);
                            } else {
                                assert(j != i);
                            }
                        }
                        if old_self.has(x) {
                            let j = old_self.index_of(x);
                            old_self.lemma_index(j);
                            assert(self.entries@[j].0 == x);
                            self.lemma_index(j);
                        }
                        if x == k {
                            self.lemma_index(i as int);
                        }
                    }
                    assert(self@ =~= old_self@.insert(k, v));
                }
            },
            None => {
                self.entries.push((k, v));
                proof {
                    assert(self.keys() =~= old_self.keys().push(k));
                    let n = old_self.entries@.len() as int;
                    assert forall|i: int, j: int| 0 <= i < j < self.entries@.len() implies #[trigger] self.entries@[i].0
                        != #[trigger] self.entries@[j].0 by {
                        if j == n {
                            assert(old_self.entries@[i].0 != k);
                        } else {
                            assert(old_self.entries@[i].0 != old_self.entries@[j].0);
                        }
                    }
                    assert forall|x: FaceKey| #[trigger] self@.contains_key(x) == old_self@.insert(k, v).contains_key(x)
                        && (self@.contains_key(x) ==> self@[x] == old_self@.insert(k, v)[x]) by {
                        if x == k {
                            self.lemma_index(n);
                        } else {
                            if self.has(x) {
                                let j = self.index_of(x);
                                assert(j != n);
                                assert(old_self.entries@[j].0 == x);
                                old_self.lemma_index(j);
                            }
                            if old_self.has(x) {
                                let j = old_self.index_of(x);
                                old_self.lemma_index(j);
                                assert(self.entries@[j].0 == x);
                                self.lemma_index(j);
                            }
                        }
                    }
                    assert(self@ =~= old_self@.insert(k, v));
                }
            },
        }
    }

    /// Removes `k`, giving back its value.
    pub fn remove(&mut self, k: &FaceKey) -> (r: Option<V>)
        requires
            old(self).wf(),
        ensures
            final(self).wf(),
            final(self)@ == old(self)@.remove(*k),
            match r {
                Some(v) => old(self)@.contains_key(*k) && old(self)@[*k] == v,
                None => !old(self)@.contains_key(*k),
            },
    {
        let ghost old_self = *self;
        match self.find(k) {
            Some(i) => {
                proof {
                    old_self.lemma_index(i as int);
                }
                let (_, v) = self.entries.remove(i);
                proof {
                    assert forall|a: int, b: int| 0 <= a < b < self.entries@.len() implies #[trigger] self.entries@[a].0
                        != #[trigger] self.entries@[b].0 by {
                        let oa = if a < i { a } else { a + 1 };
                        let ob = if b < i { b } else { b + 1 };
                        assert(old_self.entries@[oa].0 != old_self.entries@[ob].0);
                    }
                    assert forall|x: FaceKey| #[trigger] self@.contains_key(x) == old_self@.remove(*k).contains_key(x)
                        && (self@.contains_key(x) ==> self@[x] == old_self@.remove(*k)[x]) by {
                        if self.has(x) {
                            let j = self.index_of(x);
                            let oj = if j < i { j } else { j + 1 };
                            assert(old_self.entries@[oj].0 == x);
                            old_self.lemma_index(oj);
                            self.lemma_index(j);
                            assert(x != *k);
                        }
                        if old_self.has(x) && x != *k {
                            let oj = old_self.index_of(x);
                            old_self.lemma_index(oj);
                            assert(oj != i);
                            let j = if oj < i { oj } else { oj - 1 };
                            assert(self.entries@[j].0 == x);
                            self.lemma_index(j);
                        }
                    }
                    assert(self@ =~= old_self@.remove(*k));
                }
                Some(v)
            },
            None => {
                assert(self@ =~= old_self@.remove(*k));
                None
            },
        }
    }

    /// The keys, in the order they were added.
    pub fn key_list(&self) -> (v: Vec<FaceKey>)
        requires
            self.wf(),
        ensures
            v@ == self.keys(),
    {
        let mut v = Vec::new();
        let mut i: usize = 0;
        while i < self.entries.len()
            invariant
                i <= self.entries@.len(),
                v@ == self.keys().subrange(0, i as int),
            decreases self.entries@.len() - i,
        {
            v.push(self.entries[i].0);
            proof {
                assert(self.keys().subrange(0, i + 1) =~= self.keys().subrange(0, i as int).push(self.entries@[i as int].0));
            }
            i = i + 1;
        }
        assert(self.keys().subrange(0, self.entries@.len() as int) =~= self.keys());
        v
    }
}

} // verus!
