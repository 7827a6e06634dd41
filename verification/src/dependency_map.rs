use vstd::prelude::*;
use crate::id_set::IdSet;

verus! {

/// An entity waiting for other entities, with the value it holds meanwhile.
pub struct Waiter<V> {
    pub entity: u64,
    pub deps: IdSet,
    pub value: V,
}

/// Entities that wait for other entities to complete, in the order they
/// started waiting.
pub struct DependencyMap<V: View> {
    waiters: Vec<Waiter<V>>,
}

/// The waiters, each with the entity, what it still waits for, and its value.
pub open spec fn waiter_view<V: View>(w: Waiter<V>) -> (u64, Set<u64>, V::V) {
    (w.entity, w.deps@, w.value@)
}

impl<V: View> View for DependencyMap<V> {
    type V = Seq<(u64, Set<u64>, V::V)>;

    closed spec fn view(&self) -> Seq<(u64, Set<u64>, V::V)> {
        self.waiters@.map_values(|w: Waiter<V>| waiter_view(w))
    }
}

/// The waiters that wait for nothing more once `d` is complete, in order.
pub open spec fn released<V>(ws: Seq<(u64, Set<u64>, V)>, d: u64) -> Seq<(u64, V)>
    decreases ws.len(),
{
    if ws.len() == 0 {
        Seq::empty()
    } else {
        let prev = released(ws.drop_last(), d);
        let w = ws.last();
        if w.1.remove(d) == Set::<u64>::empty() {
            prev.push((w.0, w.2))
        } else {
            prev
        }
    }
}

/// The waiters that still wait for something once `d` is complete, in order,
/// `d` no longer among what they wait for.
pub open spec fn kept<V>(ws: Seq<(u64, Set<u64>, V)>, d: u64) -> Seq<(u64, Set<u64>, V)>
    decreases ws.len(),
{
    if ws.len() == 0 {
        Seq::empty()
    } else {
        let prev = kept(ws.drop_last(), d);
        let w = ws.last();
        if w.1.remove(d) == Set::<u64>::empty() {
            prev
        } else {
            prev.push((w.0, w.1.remove(d), w.2))
        }
    }
}

/// Completing an entity splits the waiters: none is lost or made up.
pub proof fn lemma_split_len<V>(ws: Seq<(u64, Set<u64>, V)>, d: u64)
    ensures
        released(ws, d).len() + kept(ws, d).len() == ws.len(),
    decreases ws.len(),
{
    if ws.len() > 0 {
        lemma_split_len(ws.drop_last(), d);
    }
}

/// A property of every waiting value holds of every value that completing an
/// entity releases or keeps.
pub proof fn lemma_split_keeps<V>(ws: Seq<(u64, Set<u64>, V)>, d: u64, p: spec_fn(V) -> bool)
    requires
        forall|i: int| 0 <= i < ws.len() ==> p(#[trigger] ws[i].2),
    ensures
        forall|i: int| 0 <= i < released(ws, d).len() ==> p(#[trigger] released(ws, d)[i].1),
        forall|i: int| 0 <= i < kept(ws, d).len() ==> p(#[trigger] kept(ws, d)[i].2),
    decreases ws.len(),
{
    if ws.len() > 0 {
        let prefix = ws.drop_last();
        assert forall|i: int| 0 <= i < prefix.len() implies p(#[trigger] prefix[i].2) by {
            assert(prefix[i] == ws[i]);
            assert(p(ws[i].2));
        }
        lemma_split_keeps(prefix, d, p);
        let w = ws.last();
        assert(p(w.2));
        let r = released(ws, d);
        let k = kept(ws, d);
        assert forall|i: int| 0 <= i < r.len() implies p(#[trigger] r[i].1) by {
            if i < released(prefix, d).len() {
                assert(r[i] == released(prefix, d)[i]);
            }
        }
        assert forall|i: int| 0 <= i < k.len() implies p(#[trigger] k[i].2) by {
            if i < kept(prefix, d).len() {
                assert(k[i] == kept(prefix, d)[i]);
            }
        }
    }
}

/// The values of `r` by their views.
pub open spec fn pairs_view<V: View>(r: Seq<(u64, V)>) -> Seq<(u64, V::V)> {
    r.map_values(|p: (u64, V)| (p.0, p.1@))
}

impl<V: View> DependencyMap<V> {
    pub fn new() -> (m: Self)
        ensures
            m@ == Seq::<(u64, Set<u64>, V::V)>::empty(),
    {
        let m = DependencyMap { waiters: Vec::new() };
        assert(m@ =~= Seq::<(u64, Set<u64>, V::V)>::empty());
        m
    }

    /// Makes `waiter`, holding `value`, wait for every entity in `deps`.
    pub fn insert_waiting_dependencies(&mut self, deps: IdSet, waiter: u64, value: V)
        ensures
            final(self)@ == old(self)@.push((waiter, deps@, value@)),
    {
        let ghost before = self@;
        let ghost w = (waiter, deps@, value@);
        self.waiters.push(Waiter { entity: waiter, deps, value });
        assert(self@ =~= before.push(w));
    }

    /// Marks `dependency` complete: returns, in order, the waiters that wait
    /// for nothing more, and keeps the others.
    pub fn on_dependency_complete(&mut self, dependency: u64) -> (r: Vec<(u64, V)>)
        ensures
            pairs_view(r@) == released(old(self)@, dependency),
            final(self)@ == kept(old(self)@, dependency),
    {
        let ghost ws = self@;
        let mut rest: Vec<Waiter<V>> = Vec::new();
        std::mem::swap(&mut rest, &mut self.waiters);
        let ghost all = rest@;
        let mut out: Vec<(u64, V)> = Vec::new();
        let mut i: usize = 0;
        let n = rest.len();
        while rest.len() > 0
            invariant
                ws == all.map_values(|w: Waiter<V>| waiter_view(w)),
                n == all.len(),
                i + rest@.len() == n,
                rest@ == all.subrange(i as int, n as int),
                pairs_view(out@) == released(ws.subrange(0, i as int), dependency),
                self@ == kept(ws.subrange(0, i as int), dependency),
            decreases rest@.len(),
        {
            let mut w = rest.remove(0);
            proof {
                assert(ws.subrange(0, i + 1).drop_last() == ws.subrange(0, i as int));
                assert(ws.subrange(0, i + 1).last() == waiter_view(all[i as int]));
                assert(w == all[i as int]);
            }
            w.deps.remove(dependency);
            if w.deps.is_empty() {
                let ghost o = out@;
                out.push((w.entity, w.value));
                assert(pairs_view(out@) =~= pairs_view(o).push((w.entity, w.value@)));
            } else {
                let ghost before = self@;
                self.waiters.push(w);
                assert(self@ =~= before.push(waiter_view(w)));
            }
            i = i + 1;
        }
        assert(ws.subrange(0, n as int) == ws);
        out
    }
}

} // verus!
