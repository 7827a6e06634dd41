use vstd::prelude::*;

verus! {

broadcast use {vstd::seq_lib::group_seq_properties, vstd::seq_lib::group_filter_ensures};

/// A finite set of entity ids, kept in the order they were added.
pub struct IdSet {
    items: Vec<u64>,
}

impl View for IdSet {
    type V = Set<u64>;

    closed spec fn view(&self) -> Set<u64> {
        self.items@.to_set()
    }
}

proof fn lemma_push_to_set(s: Seq<u64>, x: u64)
    ensures
        s.push(x).to_set() == s.to_set().insert(x),
{
    assert(s.push(x).to_set() =~= s.to_set().insert(x)) by {
        assert forall|y: u64| s.push(x).contains(y) <==> (s.contains(y) || y == x) by {
            if s.push(x).contains(y) {
                let k = choose|k: int| 0 <= k < s.push(x).len() && s.push(x)[k] == y;
                if k < s.len() {
                    assert(s[k] == y);
                }
            }
            if s.contains(y) {
                let k = choose|k: int| 0 <= k < s.len() && s[k] == y;
                assert(s.push(x)[k] == y);
            }
            if y == x {
                assert(s.push(x)[s.len() as int] == x);
            }
        }
    }
}

impl IdSet {
    /// The elements, in the order they were added.
    pub closed spec fn elements(self) -> Seq<u64> {
        self.items@
    }

    /// The elements make up the set.
    pub proof fn lemma_elements(self)
        ensures
            self.elements().to_set() == self@,
            forall|i: int| 0 <= i < self.elements().len() ==> self@.contains(#[trigger] self.elements()[i]),
    {
    }

    pub fn new() -> (s: Self)
        ensures
            s@ == Set::<u64>::empty(),
            s.elements() == Seq::<u64>::empty(),
    {
        let s = IdSet { items: Vec::new() };
        assert(s@ =~= Set::<u64>::empty());
        s
    }

    /// How many elements are listed.
    pub fn len(&self) -> (n: usize)
        ensures
            n == self.elements().len(),
    {
        self.items.len()
    }

    /// The `i`-th element in the order of addition.
    pub fn get(&self, i: usize) -> (x: u64)
        requires
            i < self.elements().len(),
        ensures
            x == self.elements()[i as int],
            self@.contains(x),
    {
        self.items[i]
    }

    pub fn contains(&self, x: u64) -> (r: bool)
        ensures
            r == self@.contains(x),
    {
        let mut i: usize = 0;
        while i < self.items.len()
            invariant
                i <= self.items@.len(),
                forall|j: int| 0 <= j < i ==> self.items@[j] != x,
            decreases self.items@.len() - i,
        {
            if self.items[i] == x {
                return true;
            }
            i = i + 1;
        }
        false
    }

    /// Adds `x`; returns whether it was not there before.
    pub fn insert(&mut self, x: u64) -> (added: bool)
        ensures
            final(self)@ == old(self)@.insert(x),
            added == !old(self)@.contains(x),
    {
        if self.contains(x) {
            assert(self@.insert(x) =~= self@);
            return false;
        }
        proof {
            lemma_push_to_set(self.items@, x);
        }
        self.items.push(x);
        true
    }

    /// Removes `x`; returns whether it was there.
    pub fn remove(&mut self, x: u64) -> (removed: bool)
        ensures
            final(self)@ == old(self)@.remove(x),
            removed == old(self)@.contains(x),
    {
        let ghost before = self.items@;
        let mut kept: Vec<u64> = Vec::new();
        let mut found = false;
        let mut i: usize = 0;
        while i < self.items.len()
            invariant
                self.items@ == before,
                i <= before.len(),
                kept@.to_set() == before.subrange(0, i as int).to_set().remove(x),
                found == before.subrange(0, i as int).contains(x),
            decreases before.len() - i,
        {
            let y = self.items[i];
            proof {
                assert(before.subrange(0, i + 1) == before.subrange(0, i as int).push(y));
                lemma_push_to_set(before.subrange(0, i as int), y);
            }
            if y == x {
                found = true;
                assert(kept@.to_set() =~= before.subrange(0, i + 1).to_set().remove(x));
            } else {
                proof {
                    lemma_push_to_set(kept@, y);
                }
                kept.push(y);
                assert(kept@.to_set() =~= before.subrange(0, i + 1).to_set().remove(x));
            }
            i = i + 1;
        }
        assert(before.subrange(0, before.len() as int) == before);
        self.items = kept;
        found
    }

    /// The elements of `self` that are also in `other`, in `self`'s order.
    pub fn intersection(&self, other: &IdSet) -> (r: IdSet)
        ensures
            r@ == self@.intersect(other@),
            r.elements() == self.elements().filter(|y: u64| other@.contains(y)),
    {
        let ghost pred = |y: u64| other@.contains(y);
        let mut items: Vec<u64> = Vec::new();
        let mut i: usize = 0;
        while i < self.items.len()
            invariant
                i <= self.items@.len(),
                items@ == self.items@.subrange(0, i as int).filter(pred),
                pred == (|y: u64| other@.contains(y)),
            decreases self.items@.len() - i,
        {
            let x = self.items[i];
            proof {
                assert(self.items@.subrange(0, i + 1).drop_last() == self.items@.subrange(0, i as int));
                reveal_with_fuel(Seq::filter, 1);
            }
            if other.contains(x) {
                items.push(x);
            }
            i = i + 1;
        }
        assert(self.items@.subrange(0, self.items@.len() as int) == self.items@);
        let r = IdSet { items };
        assert(r@ =~= self@.intersect(other@)) by {
            assert forall|y: u64| r@.contains(y) <==> (self@.contains(y) && other@.contains(y)) by {
                let f = self.items@.filter(pred);
                if self.items@.contains(y) && other@.contains(y) {
                    let k = choose|k: int| 0 <= k < self.items@.len() && self.items@[k] == y;
                    assert(pred(self.items@[k]));
                    assert(f.contains(y));
                }
                if r.items@.contains(y) {
                    let k = choose|k: int| 0 <= k < f.len() && f[k] == y;
                    assert(pred(f[k]));
                    self.items@.lemma_filter_contains_rev(pred, y);
                }
            }
        }
        r
    }

    /// Some element of the set, if it is not empty.
    pub fn first(&self) -> (r: Option<u64>)
        ensures
            match r {
                Some(x) => self@.contains(x),
                None => self@.is_empty(),
            },
    {
        if self.items.len() > 0 {
            Some(self.items[0])
        } else {
            assert(self@ =~= Set::<u64>::empty());
            None
        }
    }

    /// Whether the set has no element.
    pub fn is_empty(&self) -> (r: bool)
        ensures
            r == (self@ == Set::<u64>::empty()),
    {
        if self.items.len() == 0 {
            assert(self@ =~= Set::<u64>::empty());
            true
        } else {
            assert(self@.contains(self.items@[0]));
            false
        }
    }

    /// The elements, in the order they were added.
    pub fn to_vec(&self) -> (v: Vec<u64>)
        ensures
            v@ == self.elements(),
    {
        self.items.clone()
    }
}

} // verus!
