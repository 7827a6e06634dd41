use vstd::prelude::*;
use crate::component_waitlist::{
    lemma_ready_exactly_when_components_arrived, completed_of, dependencies, drain, inserted, insert_outcome, ready_outcome, run, ComponentType, ComponentWaitlistInsert,
    EntryView, ShapeRegistry, WaitlistView,
};
use crate::dependency_map::{kept, lemma_split_keeps, lemma_split_len, released};
use crate::file_ext::FileExtension;

verus! {

/// The entities of the shapes in `done`.
pub open spec fn set_up_ids<A>(done: Seq<(u64, EntryView<A>)>) -> Set<u64> {
    Set::new(|x: u64| exists|i: int| 0 <= i < done.len() && #[trigger] done[i].0 == x)
}

/// Every shape that the entry names is set up: it is in the registry (the
/// icon editor's, for an icon shape), or among `ids`.
pub open spec fn names_known<A>(e: EntryView<A>, reg: ShapeRegistry, ids: Set<u64>) -> bool {
    let kv = reg.vertices.union(ids);
    let ke = reg.edges.union(ids);
    match (e.component_type, e.file_type) {
        (Some(ComponentType::Vertex), Some(FileExtension::Skel)) => match e.vertex_parent {
            Some(Some(p)) => kv.contains(p),
            _ => true,
        },
        (Some(ComponentType::Edge), Some(FileExtension::Skel)) | (Some(ComponentType::Edge), Some(FileExtension::Mesh)) => {
            let (a, b) = e.edge_entities->0;
            kv.contains(a) && kv.contains(b)
        },
        (Some(ComponentType::Face), Some(FileExtension::Mesh)) => {
            let (va, vb, vc, ea, eb, ec) = e.face_entities->0;
            &&& kv.contains(va) && kv.contains(vb) && kv.contains(vc)
            &&& ke.contains(ea) && ke.contains(eb) && ke.contains(ec)
        },
        (Some(ComponentType::Edge), Some(FileExtension::Icon)) => match reg.icon {
            Some((iv, ie)) => {
                let (a, b) = e.edge_entities->0;
                iv.union(ids).contains(a) && iv.union(ids).contains(b)
            },
            None => false,
        },
        (Some(ComponentType::Face), Some(FileExtension::Icon)) => match reg.icon {
            Some((iv, ie)) => {
                let (va, vb, vc, ea, eb, ec) = e.face_entities->0;
                &&& iv.union(ids).contains(va) && iv.union(ids).contains(vb) && iv.union(ids).contains(vc)
                &&& ie.union(ids).contains(ea) && ie.union(ids).contains(eb) && ie.union(ids).contains(ec)
            },
            None => false,
        },
        _ => true,
    }
}

/// Every waiter misses at most what it waits for: each shape it names is set
/// up (see `names_known`, with `ids`) or among what it waits for.
pub open spec fn waiters_tracked<A>(ws: Seq<(u64, Set<u64>, EntryView<A>)>, reg: ShapeRegistry, ids: Set<u64>) -> bool {
    forall|i: int| 0 <= i < ws.len() ==> names_known(#[trigger] ws[i].2, reg, ws[i].1.union(ids))
}

/// Each shape of `out` comes after what it names: that is in the registry,
/// among `before`, or earlier in `out`.
pub open spec fn set_up_in_order<A>(out: Seq<(u64, EntryView<A>)>, reg: ShapeRegistry, before: Set<u64>) -> bool {
    forall|i: int| 0 <= i < out.len() ==> names_known(#[trigger] out[i].1, reg, before.union(set_up_ids(out.take(i))))
}

proof fn lemma_names_known_grows<A>(e: EntryView<A>, reg: ShapeRegistry, a: Set<u64>, b: Set<u64>)
    requires
        names_known(e, reg, a),
        a.subset_of(b),
    ensures
        names_known(e, reg, b),
{
}

proof fn lemma_dependencies_name_the_rest<A>(e: EntryView<A>, reg: ShapeRegistry, dv: Set<u64>, de: Set<u64>)
    requires
        dependencies(e, reg, dv, de) is Some,
    ensures
        names_known(e, reg, dependencies(e, reg, dv, de)->0.union(dv).union(de)),
{
}

proof fn lemma_completed_are_set_up<A>(done: Seq<(u64, EntryView<A>)>, t: ComponentType)
    ensures
        completed_of(done, t).subset_of(set_up_ids(done)),
    decreases done.len(),
{
    if done.len() > 0 {
        let prefix = done.drop_last();
        lemma_completed_are_set_up(prefix, t);
        assert forall|x: u64| completed_of(done, t).contains(x) implies #[trigger] set_up_ids(done).contains(x) by {
            if x == done.last().0 {
                assert(done[done.len() - 1].0 == x);
            } else {
                assert(completed_of(prefix, t).contains(x));
                let i = choose|i: int| 0 <= i < prefix.len() && #[trigger] prefix[i].0 == x;
                assert(done[i].0 == x);
            }
        }
    }
}

/// Once `d` is set up, every waiter that it releases has what it names set
/// up, and every waiter that it keeps still tracks what it misses.
proof fn lemma_split_tracked<A>(ws: Seq<(u64, Set<u64>, EntryView<A>)>, reg: ShapeRegistry, ids: Set<u64>, d: u64)
    requires
        waiters_tracked(ws, reg, ids),
    ensures
        waiters_tracked(kept(ws, d), reg, ids.insert(d)),
        forall|i: int| 0 <= i < released(ws, d).len() ==> names_known(#[trigger] released(ws, d)[i].1, reg, ids.insert(d)),
    decreases ws.len(),
{
    if ws.len() > 0 {
        let prefix = ws.drop_last();
        assert forall|i: int| 0 <= i < prefix.len() implies names_known(#[trigger] prefix[i].2, reg, prefix[i].1.union(ids)) by {
            assert(prefix[i] == ws[i]);
        }
        lemma_split_tracked(prefix, reg, ids, d);
        let w = ws.last();
        assert(names_known(w.2, reg, w.1.union(ids)));
        let r = released(ws, d);
        let k = kept(ws, d);
        if w.1.remove(d) == Set::<u64>::empty() {
            assert(w.1.union(ids).subset_of(ids.insert(d))) by {
                assert forall|x: u64| w.1.contains(x) implies x == d by {
                    assert(!w.1.remove(d).contains(x));
                }
            }
            lemma_names_known_grows(w.2, reg, w.1.union(ids), ids.insert(d));
            assert forall|i: int| 0 <= i < r.len() implies names_known(#[trigger] r[i].1, reg, ids.insert(d)) by {
                if i < released(prefix, d).len() {
                    assert(r[i] == released(prefix, d)[i]);
                }
            }
            assert forall|i: int| 0 <= i < k.len() implies names_known(#[trigger] k[i].2, reg, k[i].1.union(ids.insert(d))) by {
                assert(k[i] == kept(prefix, d)[i]);
            }
        } else {
            lemma_names_known_grows(w.2, reg, w.1.union(ids), w.1.remove(d).union(ids.insert(d)));
            assert forall|i: int| 0 <= i < r.len() implies names_known(#[trigger] r[i].1, reg, ids.insert(d)) by {
                assert(r[i] == released(prefix, d)[i]);
            }
            assert forall|i: int| 0 <= i < k.len() implies names_known(#[trigger] k[i].2, reg, k[i].1.union(ids.insert(d))) by {
                if i < kept(prefix, d).len() {
                    assert(k[i] == kept(prefix, d)[i]);
                }
            }
        }
    }
}

proof fn lemma_set_up_ids_prepend<A>(top: (u64, EntryView<A>), s: Seq<(u64, EntryView<A>)>, i: int)
    requires
        0 <= i <= s.len(),
    ensures
        set_up_ids((seq![top] + s).take(i + 1)) == set_up_ids(s.take(i)).insert(top.0),
{
    let t = (seq![top] + s).take(i + 1);
    let u = s.take(i);
    assert forall|x: u64| set_up_ids(t).contains(x) <==> #[trigger] set_up_ids(u).insert(top.0).contains(x) by {
        if set_up_ids(t).contains(x) {
            let j = choose|j: int| 0 <= j < t.len() && #[trigger] t[j].0 == x;
            if j > 0 {
                assert(u[j - 1] == t[j]);
            }
        }
        if set_up_ids(u).contains(x) {
            let j = choose|j: int| 0 <= j < u.len() && #[trigger] u[j].0 == x;
            assert(t[j + 1] == u[j]);
        }
        if x == top.0 {
            assert(t[0].0 == x);
        }
    }
    assert(set_up_ids(t) =~= set_up_ids(u).insert(top.0));
}

/// Setting up a stack of shapes whose names are set up, with waiters that
/// track what they miss: each shape comes after what it names, and the
/// waiters left still track what they miss.
proof fn lemma_drain_in_order<A>(
    ws: Seq<(u64, Set<u64>, EntryView<A>)>,
    stack: Seq<(u64, EntryView<A>)>,
    reg: ShapeRegistry,
    ids: Set<u64>,
)
    requires
        waiters_tracked(ws, reg, ids),
        forall|i: int| 0 <= i < stack.len() ==> names_known(#[trigger] stack[i].1, reg, ids),
    ensures
        set_up_in_order(drain(ws, stack).1, reg, ids),
        waiters_tracked(drain(ws, stack).0, reg, ids.union(set_up_ids(drain(ws, stack).1))),
    decreases ws.len() + stack.len(),
{
    if stack.len() == 0 {
        assert(ids.union(set_up_ids(Seq::<(u64, EntryView<A>)>::empty())) =~= ids);
    } else {
        let top = stack.last();
        let ids2 = ids.insert(top.0);
        lemma_split_len(ws, top.0);
        lemma_split_tracked(ws, reg, ids, top.0);
        let rel = released(ws, top.0);
        let next = stack.drop_last() + rel.reverse();
        assert forall|i: int| 0 <= i < next.len() implies names_known(#[trigger] next[i].1, reg, ids2) by {
            if i < stack.len() - 1 {
                assert(next[i] == stack[i]);
                lemma_names_known_grows(stack[i].1, reg, ids, ids2);
            } else {
                let j = i - (stack.len() - 1);
                assert(next[i] == rel.reverse()[j]);
                assert(rel.reverse()[j] == rel[rel.len() - 1 - j]);
            }
        }
        lemma_drain_in_order(kept(ws, top.0), next, reg, ids2);
        let rest = drain(kept(ws, top.0), next).0;
        let out2 = drain(kept(ws, top.0), next).1;
        let out = seq![top] + out2;
        assert(drain(ws, stack) == (rest, out));
        assert forall|i: int| 0 <= i < out.len() implies names_known(#[trigger] out[i].1, reg, ids.union(set_up_ids(out.take(i)))) by {
            if i == 0 {
                assert(ids.union(set_up_ids(out.take(0))) =~= ids);
                assert(stack[stack.len() - 1] == top);
            } else {
                assert(out[i] == out2[i - 1]);
                lemma_set_up_ids_prepend(top, out2, i - 1);
                assert(ids2.union(set_up_ids(out2.take(i - 1))) =~= ids.union(set_up_ids(out.take(i))));
            }
        }
        lemma_set_up_ids_prepend(top, out2, out2.len() as int);
        assert(out2.take(out2.len() as int) == out2);
        assert(out.take(out.len() as int) == out);
        assert(ids2.union(set_up_ids(out2)) =~= ids.union(set_up_ids(out)));
    }
}

proof fn lemma_set_up_ids_concat<A>(a: Seq<(u64, EntryView<A>)>, b: Seq<(u64, EntryView<A>)>)
    ensures
        set_up_ids(a + b) == set_up_ids(a).union(set_up_ids(b)),
{
    let c = a + b;
    assert forall|x: u64| set_up_ids(c).contains(x) <==> #[trigger] set_up_ids(a).union(set_up_ids(b)).contains(x) by {
        if set_up_ids(c).contains(x) {
            let j = choose|j: int| 0 <= j < c.len() && #[trigger] c[j].0 == x;
            if j < a.len() {
                assert(a[j] == c[j]);
            } else {
                assert(b[j - a.len()] == c[j]);
            }
        }
        if set_up_ids(a).contains(x) {
            let j = choose|j: int| 0 <= j < a.len() && #[trigger] a[j].0 == x;
            assert(c[j] == a[j]);
        }
        if set_up_ids(b).contains(x) {
            let j = choose|j: int| 0 <= j < b.len() && #[trigger] b[j].0 == x;
            assert(c[a.len() + j] == b[j]);
        }
    }
    assert(set_up_ids(c) =~= set_up_ids(a).union(set_up_ids(b)));
}

/// Running the checks of an arrival keeps the shapes set up so far in order,
/// and the waiters tracking what they miss.
proof fn lemma_run_in_order<A>(s: WaitlistView<A>, list: Seq<u64>, reg: ShapeRegistry, done: Seq<(u64, EntryView<A>)>)
    requires
        waiters_tracked(s.waiting, reg, set_up_ids(done)),
        set_up_in_order(done, reg, Set::empty()),
        run(s, list, reg, done) is Some,
    ensures
        set_up_in_order(run(s, list, reg, done).unwrap().1, reg, Set::empty()),
        waiters_tracked(run(s, list, reg, done).unwrap().0.waiting, reg, set_up_ids(run(s, list, reg, done).unwrap().1)),
    decreases list.len(),
{
    if list.len() > 0 {
        let x = list[0];
        let e = s.incomplete[x];
        if ready_outcome(e) == Some(true) {
            let inc = s.incomplete.remove(x);
            let dv = completed_of(done, ComponentType::Vertex);
            let de = completed_of(done, ComponentType::Edge);
            let ids = set_up_ids(done);
            let deps = dependencies(e, reg, dv, de)->0;
            lemma_dependencies_name_the_rest(e, reg, dv, de);
            lemma_completed_are_set_up(done, ComponentType::Vertex);
            lemma_completed_are_set_up(done, ComponentType::Edge);
            lemma_names_known_grows(e, reg, deps.union(dv).union(de), deps.union(ids));
            if deps == Set::<u64>::empty() {
                assert(deps.union(ids) =~= ids);
                let ws = drain(s.waiting, seq![(x, e)]).0;
                let out = drain(s.waiting, seq![(x, e)]).1;
                lemma_drain_in_order(s.waiting, seq![(x, e)], reg, ids);
                let done2 = done + out;
                lemma_set_up_ids_concat(done, out);
                assert forall|i: int| 0 <= i < done2.len() implies names_known(
                    #[trigger] done2[i].1,
                    reg,
                    Set::<u64>::empty().union(set_up_ids(done2.take(i))),
                ) by {
                    if i < done.len() {
                        assert(done2[i] == done[i]);
                        assert(done2.take(i) == done.take(i));
                    } else {
                        let j = i - done.len();
                        assert(done2[i] == out[j]);
                        assert(done2.take(i) == done + out.take(j));
                        lemma_set_up_ids_concat(done, out.take(j));
                        assert(Set::<u64>::empty().union(set_up_ids(done2.take(i))) =~= ids.union(set_up_ids(out.take(j))));
                    }
                }
                lemma_run_in_order(WaitlistView { incomplete: inc, waiting: ws }, list.drop_first(), reg, done2);
            } else {
                let ws = s.waiting.push((x, deps, e));
                assert forall|i: int| 0 <= i < ws.len() implies names_known(#[trigger] ws[i].2, reg, ws[i].1.union(ids)) by {
                    if i < s.waiting.len() {
                        assert(ws[i] == s.waiting[i]);
                    }
                }
                lemma_run_in_order(WaitlistView { incomplete: inc, waiting: ws }, list.drop_first(), reg, done);
            }
        }
    }
}

/// The waitlist sets shapes up in order. When each waiting shape waits for
/// every shape that it names and that is not set up (in the registry read by
/// the call), then after an arrival every shape handed out comes after all it
/// names, each of which is in the registry or handed out before it; and every
/// shape left waiting still waits for all it names that is neither in the
/// registry nor handed out.
pub proof fn lemma_insert_outcome_in_order<A>(
    s: WaitlistView<A>,
    reg: ShapeRegistry,
    entity: u64,
    insert: ComponentWaitlistInsert<A>,
)
    requires
        waiters_tracked(s.waiting, reg, Set::empty()),
        insert_outcome(s, reg, entity, insert) is Some,
    ensures
        set_up_in_order(insert_outcome(s, reg, entity, insert).unwrap().1, reg, Set::empty()),
        waiters_tracked(
            insert_outcome(s, reg, entity, insert).unwrap().0.waiting,
            reg,
            set_up_ids(insert_outcome(s, reg, entity, insert).unwrap().1),
        ),
{
    let s1 = inserted(s, entity, insert).0;
    let list = inserted(s, entity, insert).1;
    assert(s1.waiting == s.waiting);
    assert(set_up_ids(Seq::<(u64, EntryView<A>)>::empty()) =~= Set::<u64>::empty());
    lemma_run_in_order(s1, list, reg, Seq::empty());
}

/// An arrival that completes the entry of `entity` (and touches no other
/// entry) while some shape it names is not set up: the entry leaves the
/// incomplete ones and waits on exactly the shapes it names that are not in
/// the registry; nothing is handed out.
pub proof fn lemma_insert_waits_on_missing<A>(
    s: WaitlistView<A>,
    reg: ShapeRegistry,
    entity: u64,
    insert: ComponentWaitlistInsert<A>,
)
    requires
        inserted(s, entity, insert).1 == seq![entity],
        ready_outcome(inserted(s, entity, insert).0.incomplete[entity]) == Some(true),
        dependencies(inserted(s, entity, insert).0.incomplete[entity], reg, Set::empty(), Set::empty()) matches Some(deps)
            && deps != Set::<u64>::empty(),
    ensures
        ({
            let s1 = inserted(s, entity, insert).0;
            let e = s1.incomplete[entity];
            let deps = dependencies(e, reg, Set::empty(), Set::empty())->0;
            insert_outcome(s, reg, entity, insert) == Some((
                WaitlistView { incomplete: s1.incomplete.remove(entity), waiting: s.waiting.push((entity, deps, e)) },
                Seq::<(u64, EntryView<A>)>::empty(),
            ))
        }),
{
    let s1 = inserted(s, entity, insert).0;
    let list = seq![entity];
    let done = Seq::<(u64, EntryView<A>)>::empty();
    assert(completed_of(done, ComponentType::Vertex) == Set::<u64>::empty());
    assert(completed_of(done, ComponentType::Edge) == Set::<u64>::empty());
    assert(s1.incomplete.contains_key(entity));
    assert(s1.waiting == s.waiting);
    assert(list.drop_first().len() == 0);
    reveal_with_fuel(run, 2);
    assert(list[0] == entity);
    let e = s1.incomplete[entity];
    let deps = dependencies(e, reg, Set::empty(), Set::empty())->0;
    assert(run(s1, list, reg, done) == run(
        WaitlistView { incomplete: s1.incomplete.remove(entity), waiting: s1.waiting.push((entity, deps, e)) },
        list.drop_first(),
        reg,
        done,
    ));
}

/// The entities of `done` are pairwise distinct.
pub open spec fn distinct_ids<A>(done: Seq<(u64, EntryView<A>)>) -> bool {
    forall|i: int, j: int| 0 <= i < done.len() && 0 <= j < done.len() && i != j ==> #[trigger] done[i].0 != #[trigger] done[j].0
}

/// The entities that wait in `ws`.
pub open spec fn waiter_ids<A>(ws: Seq<(u64, Set<u64>, EntryView<A>)>) -> Set<u64> {
    Set::new(|x: u64| exists|i: int| 0 <= i < ws.len() && #[trigger] ws[i].0 == x)
}

/// No two waiters of `ws` are the same entity.
pub open spec fn distinct_waiters<A>(ws: Seq<(u64, Set<u64>, EntryView<A>)>) -> bool {
    forall|i: int, j: int| 0 <= i < ws.len() && 0 <= j < ws.len() && i != j ==> #[trigger] ws[i].0 != #[trigger] ws[j].0
}

/// Each entity is in the waitlist at most once: no two waiters are the same
/// entity, and no waiting entity has an incomplete entry.
pub open spec fn waitlist_distinct<A>(s: WaitlistView<A>) -> bool {
    &&& distinct_waiters(s.waiting)
    &&& forall|x: u64| #[trigger] waiter_ids(s.waiting).contains(x) ==> !s.incomplete.contains_key(x)
}

proof fn lemma_split_distinct<A>(ws: Seq<(u64, Set<u64>, EntryView<A>)>, d: u64)
    requires
        distinct_waiters(ws),
    ensures
        distinct_waiters(kept(ws, d)),
        distinct_ids(released(ws, d)),
        waiter_ids(kept(ws, d)).subset_of(waiter_ids(ws)),
        set_up_ids(released(ws, d)).subset_of(waiter_ids(ws)),
        forall|x: u64| #[trigger] set_up_ids(released(ws, d)).contains(x) ==> !waiter_ids(kept(ws, d)).contains(x),
    decreases ws.len(),
{
    if ws.len() > 0 {
        let pre = ws.drop_last();
        assert forall|i: int, j: int| 0 <= i < pre.len() && 0 <= j < pre.len() && i != j implies #[trigger] pre[i].0 != #[trigger] pre[j].0 by {
            assert(pre[i] == ws[i] && pre[j] == ws[j]);
        }
        lemma_split_distinct(pre, d);
        let w = ws.last();
        let rp = released(pre, d);
        let kp = kept(pre, d);
        let r = released(ws, d);
        let k = kept(ws, d);
        assert(!waiter_ids(pre).contains(w.0)) by {
            if waiter_ids(pre).contains(w.0) {
                let i = choose|i: int| 0 <= i < pre.len() && #[trigger] pre[i].0 == w.0;
                assert(ws[i].0 == ws[ws.len() - 1].0);
            }
        }
        assert forall|x: u64| #[trigger] waiter_ids(pre).contains(x) implies waiter_ids(ws).contains(x) by {
            let i = choose|i: int| 0 <= i < pre.len() && #[trigger] pre[i].0 == x;
            assert(ws[i].0 == x);
        }
        assert(ws[ws.len() - 1].0 == w.0);
        if w.1.remove(d) == Set::<u64>::empty() {
            assert(r == rp.push((w.0, w.2)));
            assert(k == kp);
            assert forall|i: int, j: int| 0 <= i < r.len() && 0 <= j < r.len() && i != j implies #[trigger] r[i].0 != #[trigger] r[j].0 by {
                if i == r.len() - 1 {
                    assert(set_up_ids(rp).contains(r[j].0)) by { assert(rp[j] == r[j]); }
                } else if j == r.len() - 1 {
                    assert(set_up_ids(rp).contains(r[i].0)) by { assert(rp[i] == r[i]); }
                } else {
                    assert(rp[i] == r[i] && rp[j] == r[j]);
                }
            }
            assert forall|x: u64| #[trigger] set_up_ids(r).contains(x) implies waiter_ids(ws).contains(x) by {
                let i = choose|i: int| 0 <= i < r.len() && #[trigger] r[i].0 == x;
                if i < rp.len() {
                    assert(rp[i] == r[i]);
                    assert(set_up_ids(rp).contains(x));
                }
            }
            assert forall|x: u64| #[trigger] set_up_ids(r).contains(x) implies !waiter_ids(k).contains(x) by {
                let i = choose|i: int| 0 <= i < r.len() && #[trigger] r[i].0 == x;
                if i < rp.len() {
                    assert(rp[i] == r[i]);
                    assert(set_up_ids(rp).contains(x));
                }
            }
        } else {
            assert(r == rp);
            assert(k == kp.push((w.0, w.1.remove(d), w.2)));
            assert forall|i: int, j: int| 0 <= i < k.len() && 0 <= j < k.len() && i != j implies #[trigger] k[i].0 != #[trigger] k[j].0 by {
                if i == k.len() - 1 {
                    assert(waiter_ids(kp).contains(k[j].0)) by { assert(kp[j] == k[j]); }
                } else if j == k.len() - 1 {
                    assert(waiter_ids(kp).contains(k[i].0)) by { assert(kp[i] == k[i]); }
                } else {
                    assert(kp[i] == k[i] && kp[j] == k[j]);
                }
            }
            assert forall|x: u64| #[trigger] waiter_ids(k).contains(x) implies waiter_ids(ws).contains(x) by {
                let i = choose|i: int| 0 <= i < k.len() && #[trigger] k[i].0 == x;
                if i < kp.len() {
                    assert(kp[i] == k[i]);
                    assert(waiter_ids(kp).contains(x));
                }
            }
            assert forall|x: u64| #[trigger] set_up_ids(r).contains(x) implies !waiter_ids(k).contains(x) by {
                assert(!waiter_ids(kp).contains(x));
                if waiter_ids(k).contains(x) {
                    let i = choose|i: int| 0 <= i < k.len() && #[trigger] k[i].0 == x;
                    if i < kp.len() {
                        assert(kp[i] == k[i]);
                    }
                }
            }
        }
    }
}

proof fn lemma_distinct_concat<A>(a: Seq<(u64, EntryView<A>)>, b: Seq<(u64, EntryView<A>)>)
    requires
        distinct_ids(a),
        distinct_ids(b),
        forall|x: u64| #[trigger] set_up_ids(a).contains(x) ==> !set_up_ids(b).contains(x),
    ensures
        distinct_ids(a + b),
{
    let c = a + b;
    assert forall|i: int, j: int| 0 <= i < c.len() && 0 <= j < c.len() && i != j implies #[trigger] c[i].0 != #[trigger] c[j].0 by {
        if i < a.len() && j < a.len() {
            assert(c[i] == a[i] && c[j] == a[j]);
        } else if i >= a.len() && j >= a.len() {
            assert(c[i] == b[i - a.len()] && c[j] == b[j - a.len()]);
        } else if i < a.len() {
            assert(c[i] == a[i] && c[j] == b[j - a.len()]);
            assert(set_up_ids(a).contains(c[i].0));
            assert(set_up_ids(b).contains(c[j].0));
        } else {
            assert(c[j] == a[j] && c[i] == b[i - a.len()]);
            assert(set_up_ids(a).contains(c[j].0));
            assert(set_up_ids(b).contains(c[i].0));
        }
    }
}

/// Setting up a stack of distinct shapes, none of which waits: the shapes
/// handed out are distinct, come from the stack or the waiters, and none of
/// them still waits.
proof fn lemma_drain_distinct<A>(ws: Seq<(u64, Set<u64>, EntryView<A>)>, stack: Seq<(u64, EntryView<A>)>)
    requires
        distinct_waiters(ws),
        distinct_ids(stack),
        forall|x: u64| #[trigger] set_up_ids(stack).contains(x) ==> !waiter_ids(ws).contains(x),
    ensures
        distinct_ids(drain(ws, stack).1),
        distinct_waiters(drain(ws, stack).0),
        waiter_ids(drain(ws, stack).0).subset_of(waiter_ids(ws)),
        forall|x: u64| #[trigger] set_up_ids(drain(ws, stack).1).contains(x) ==> waiter_ids(ws).contains(x) || set_up_ids(stack).contains(x),
        forall|x: u64| #[trigger] set_up_ids(drain(ws, stack).1).contains(x) ==> !waiter_ids(drain(ws, stack).0).contains(x),
    decreases ws.len() + stack.len(),
{
    if stack.len() > 0 {
        let top = stack.last();
        lemma_split_len(ws, top.0);
        lemma_split_distinct(ws, top.0);
        let rel = released(ws, top.0);
        let kep = kept(ws, top.0);
        let low = stack.drop_last();
        let rr = rel.reverse();
        let next = low + rr;
        assert forall|x: u64| #[trigger] set_up_ids(low).contains(x) implies set_up_ids(stack).contains(x) && x != top.0 by {
            let i = choose|i: int| 0 <= i < low.len() && #[trigger] low[i].0 == x;
            assert(stack[i] == low[i]);
            assert(stack[stack.len() - 1] == top);
        }
        assert forall|x: u64| #[trigger] set_up_ids(rr).contains(x) <==> set_up_ids(rel).contains(x) by {
            if set_up_ids(rr).contains(x) {
                let i = choose|i: int| 0 <= i < rr.len() && #[trigger] rr[i].0 == x;
                assert(rr[i] == rel[rel.len() - 1 - i]);
            }
            if set_up_ids(rel).contains(x) {
                let i = choose|i: int| 0 <= i < rel.len() && #[trigger] rel[i].0 == x;
                assert(rr[rel.len() - 1 - i] == rel[i]);
            }
        }
        assert forall|i: int, j: int| 0 <= i < low.len() && 0 <= j < low.len() && i != j implies #[trigger] low[i].0 != #[trigger] low[j].0 by {
            assert(low[i] == stack[i] && low[j] == stack[j]);
        }
        assert forall|i: int, j: int| 0 <= i < rr.len() && 0 <= j < rr.len() && i != j implies #[trigger] rr[i].0 != #[trigger] rr[j].0 by {
            assert(rr[i] == rel[rel.len() - 1 - i] && rr[j] == rel[rel.len() - 1 - j]);
        }
        assert forall|x: u64| #[trigger] set_up_ids(low).contains(x) implies !set_up_ids(rr).contains(x) by {
            assert(set_up_ids(stack).contains(x));
            assert(!waiter_ids(ws).contains(x));
        }
        lemma_distinct_concat(low, rr);
        lemma_set_up_ids_concat(low, rr);
        assert forall|x: u64| #[trigger] set_up_ids(next).contains(x) implies !waiter_ids(kep).contains(x) by {
            if set_up_ids(low).contains(x) {
                assert(set_up_ids(stack).contains(x));
                assert(!waiter_ids(ws).contains(x));
            } else {
                assert(set_up_ids(rel).contains(x));
            }
        }
        lemma_drain_distinct(kep, next);
        let rest = drain(kep, next).0;
        let out2 = drain(kep, next).1;
        let out = seq![top] + out2;
        assert(drain(ws, stack) == (rest, out));
        assert(!waiter_ids(ws).contains(top.0)) by {
            assert(stack[stack.len() - 1] == top);
            assert(set_up_ids(stack).contains(top.0));
        }
        assert forall|x: u64| #[trigger] set_up_ids(out2).contains(x) implies waiter_ids(ws).contains(x) || set_up_ids(stack).contains(x) by {
            if !waiter_ids(kep).contains(x) {
                assert(set_up_ids(next).contains(x));
                if set_up_ids(low).contains(x) {
                } else {
                    assert(set_up_ids(rel).contains(x));
                }
            }
        }
        assert(set_up_ids(seq![top]).contains(top.0)) by {
            assert(seq![top][0].0 == top.0);
        }
        assert forall|x: u64| #[trigger] set_up_ids(seq![top]).contains(x) implies !set_up_ids(out2).contains(x) by {
            let i = choose|i: int| 0 <= i < 1 && #[trigger] seq![top][i].0 == x;
            assert(x == top.0);
            if set_up_ids(out2).contains(x) {
                if waiter_ids(kep).contains(x) {
                    assert(waiter_ids(ws).contains(x));
                } else {
                    assert(set_up_ids(next).contains(x));
                    if set_up_ids(low).contains(x) {
                    } else {
                        assert(set_up_ids(rel).contains(x));
                    }
                }
            }
        }
        assert(distinct_ids(seq![top]));
        lemma_distinct_concat(seq![top], out2);
        lemma_set_up_ids_concat(seq![top], out2);
        assert forall|x: u64| #[trigger] set_up_ids(out).contains(x) implies waiter_ids(ws).contains(x) || set_up_ids(stack).contains(x) by {
            if set_up_ids(seq![top]).contains(x) {
                let i = choose|i: int| 0 <= i < 1 && #[trigger] seq![top][i].0 == x;
                assert(set_up_ids(stack).contains(top.0));
            }
        }
        assert forall|x: u64| #[trigger] set_up_ids(out).contains(x) implies !waiter_ids(rest).contains(x) by {
            if set_up_ids(seq![top]).contains(x) {
                let i = choose|i: int| 0 <= i < 1 && #[trigger] seq![top][i].0 == x;
                assert(!waiter_ids(kep).contains(top.0));
            }
        }
    } else {
        assert(set_up_ids(Seq::<(u64, EntryView<A>)>::empty()) =~= Set::<u64>::empty());
    }
}

/// Nothing handed out so far is in the waitlist.
pub open spec fn handed_out_gone<A>(s: WaitlistView<A>, done: Seq<(u64, EntryView<A>)>) -> bool {
    forall|x: u64| #[trigger] set_up_ids(done).contains(x) ==> !s.incomplete.contains_key(x) && !waiter_ids(s.waiting).contains(x)
}

proof fn lemma_run_distinct<A>(s: WaitlistView<A>, list: Seq<u64>, reg: ShapeRegistry, done: Seq<(u64, EntryView<A>)>)
    requires
        waitlist_distinct(s),
        distinct_ids(done),
        handed_out_gone(s, done),
        run(s, list, reg, done) is Some,
    ensures
        waitlist_distinct(run(s, list, reg, done).unwrap().0),
        distinct_ids(run(s, list, reg, done).unwrap().1),
        handed_out_gone(run(s, list, reg, done).unwrap().0, run(s, list, reg, done).unwrap().1),
    decreases list.len(),
{
    if list.len() > 0 {
        let x = list[0];
        let e = s.incomplete[x];
        if ready_outcome(e) == Some(true) {
            let inc = s.incomplete.remove(x);
            let dv = completed_of(done, ComponentType::Vertex);
            let de = completed_of(done, ComponentType::Edge);
            let deps = dependencies(e, reg, dv, de)->0;
            assert(!waiter_ids(s.waiting).contains(x));
            assert(!set_up_ids(done).contains(x));
            if deps == Set::<u64>::empty() {
                let stack = seq![(x, e)];
                assert forall|y: u64| #[trigger] set_up_ids(stack).contains(y) implies !waiter_ids(s.waiting).contains(y) by {
                    let i = choose|i: int| 0 <= i < 1 && #[trigger] stack[i].0 == y;
                }
                assert(distinct_ids(stack));
                lemma_drain_distinct(s.waiting, stack);
                let ws = drain(s.waiting, stack).0;
                let out = drain(s.waiting, stack).1;
                let done2 = done + out;
                assert forall|y: u64| #[trigger] set_up_ids(done).contains(y) implies !set_up_ids(out).contains(y) by {
                    if set_up_ids(out).contains(y) {
                        if set_up_ids(stack).contains(y) {
                            let i = choose|i: int| 0 <= i < 1 && #[trigger] stack[i].0 == y;
                        }
                    }
                }
                lemma_distinct_concat(done, out);
                lemma_set_up_ids_concat(done, out);
                let s2 = WaitlistView { incomplete: inc, waiting: ws };
                assert forall|y: u64| #[trigger] waiter_ids(s2.waiting).contains(y) implies !s2.incomplete.contains_key(y) by {
                    assert(waiter_ids(s.waiting).contains(y));
                }
                assert forall|y: u64| #[trigger] set_up_ids(done2).contains(y) implies !s2.incomplete.contains_key(y)
                    && !waiter_ids(s2.waiting).contains(y) by {
                    if set_up_ids(out).contains(y) {
                        if set_up_ids(stack).contains(y) {
                            let i = choose|i: int| 0 <= i < 1 && #[trigger] stack[i].0 == y;
                        }
                    } else {
                        assert(set_up_ids(done).contains(y));
                    }
                }
                lemma_run_distinct(s2, list.drop_first(), reg, done2);
            } else {
                let ws = s.waiting.push((x, deps, e));
                let s2 = WaitlistView { incomplete: inc, waiting: ws };
                assert forall|i: int, j: int| 0 <= i < ws.len() && 0 <= j < ws.len() && i != j implies #[trigger] ws[i].0 != #[trigger] ws[j].0 by {
                    if i == ws.len() - 1 {
                        assert(ws[j] == s.waiting[j]);
                        assert(waiter_ids(s.waiting).contains(ws[j].0));
                    } else if j == ws.len() - 1 {
                        assert(ws[i] == s.waiting[i]);
                        assert(waiter_ids(s.waiting).contains(ws[i].0));
                    } else {
                        assert(ws[i] == s.waiting[i] && ws[j] == s.waiting[j]);
                    }
                }
                assert forall|y: u64| #[trigger] waiter_ids(ws).contains(y) implies y == x || waiter_ids(s.waiting).contains(y) by {
                    let i = choose|i: int| 0 <= i < ws.len() && #[trigger] ws[i].0 == y;
                    if i < s.waiting.len() {
                        assert(ws[i] == s.waiting[i]);
                    }
                }
                assert forall|y: u64| #[trigger] waiter_ids(s2.waiting).contains(y) implies !s2.incomplete.contains_key(y) by {
                    if y != x {
                        assert(waiter_ids(s.waiting).contains(y));
                    }
                }
                assert forall|y: u64| #[trigger] set_up_ids(done).contains(y) implies !s2.incomplete.contains_key(y)
                    && !waiter_ids(s2.waiting).contains(y) by {
                    if waiter_ids(s2.waiting).contains(y) && y != x {
                        assert(waiter_ids(s.waiting).contains(y));
                    }
                }
                lemma_run_distinct(s2, list.drop_first(), reg, done);
            }
        }
    }
}

/// The waitlist hands each shape out once. When no entity waits twice or
/// both waits and is incomplete, and the arriving component is not for an
/// entity that already waits, then after the arrival the shapes handed out
/// are distinct, none of them is left in the waitlist (incomplete or
/// waiting), and again no entity is in the waitlist twice.
pub proof fn lemma_insert_outcome_once<A>(s: WaitlistView<A>, reg: ShapeRegistry, entity: u64, insert: ComponentWaitlistInsert<A>)
    requires
        waitlist_distinct(s),
        !waiter_ids(s.waiting).contains(entity),
        insert_outcome(s, reg, entity, insert) is Some,
    ensures
        waitlist_distinct(insert_outcome(s, reg, entity, insert).unwrap().0),
        distinct_ids(insert_outcome(s, reg, entity, insert).unwrap().1),
        handed_out_gone(insert_outcome(s, reg, entity, insert).unwrap().0, insert_outcome(s, reg, entity, insert).unwrap().1),
{
    let s1 = inserted(s, entity, insert).0;
    let list = inserted(s, entity, insert).1;
    assert(s1.waiting == s.waiting);
    assert forall|y: u64| #[trigger] waiter_ids(s1.waiting).contains(y) implies !s1.incomplete.contains_key(y) by {
        assert(!s.incomplete.contains_key(y));
    }
    let done = Seq::<(u64, EntryView<A>)>::empty();
    assert(set_up_ids(done) =~= Set::<u64>::empty());
    lemma_run_distinct(s1, list, reg, done);
}

proof fn lemma_split_fate<V>(ws: Seq<(u64, Set<u64>, V)>, d: u64, i: int)
    requires
        0 <= i < ws.len(),
    ensures
        ws[i].1.remove(d) == Set::<u64>::empty() ==> exists|k: int|
            0 <= k < released(ws, d).len() && #[trigger] released(ws, d)[k] == (ws[i].0, ws[i].2),
        ws[i].1.remove(d) != Set::<u64>::empty() ==> exists|k: int|
            0 <= k < kept(ws, d).len() && #[trigger] kept(ws, d)[k] == (ws[i].0, ws[i].1.remove(d), ws[i].2),
    decreases ws.len(),
{
    let prefix = ws.drop_last();
    if i == ws.len() - 1 {
        if ws[i].1.remove(d) == Set::<u64>::empty() {
            assert(released(ws, d)[released(prefix, d).len() as int] == (ws[i].0, ws[i].2));
        } else {
            assert(kept(ws, d)[kept(prefix, d).len() as int] == (ws[i].0, ws[i].1.remove(d), ws[i].2));
        }
    } else {
        lemma_split_fate(prefix, d, i);
        assert(prefix[i] == ws[i]);
        if ws[i].1.remove(d) == Set::<u64>::empty() {
            let k = choose|k: int| 0 <= k < released(prefix, d).len() && #[trigger] released(prefix, d)[k] == (ws[i].0, ws[i].2);
            assert(released(ws, d)[k] == released(prefix, d)[k]);
        } else {
            let k = choose|k: int| 0 <= k < kept(prefix, d).len() && #[trigger] kept(prefix, d)[k] == (ws[i].0, ws[i].1.remove(d), ws[i].2);
            assert(kept(ws, d)[k] == kept(prefix, d)[k]);
        }
    }
}

proof fn lemma_kept_nonempty<V>(ws: Seq<(u64, Set<u64>, V)>, d: u64)
    ensures
        forall|k: int| 0 <= k < kept(ws, d).len() ==> #[trigger] kept(ws, d)[k].1 != Set::<u64>::empty(),
    decreases ws.len(),
{
    if ws.len() > 0 {
        let prefix = ws.drop_last();
        lemma_kept_nonempty(prefix, d);
        assert forall|k: int| 0 <= k < kept(ws, d).len() implies #[trigger] kept(ws, d)[k].1 != Set::<u64>::empty() by {
            if k < kept(prefix, d).len() {
                assert(kept(ws, d)[k] == kept(prefix, d)[k]);
            }
        }
    }
}

proof fn lemma_ids_cons<A>(top: (u64, EntryView<A>), out: Seq<(u64, EntryView<A>)>)
    ensures
        set_up_ids(seq![top] + out) == set_up_ids(out).insert(top.0),
        forall|j: int| 0 <= j < out.len() ==> (seq![top] + out)[j + 1] == #[trigger] out[j],
{
    let whole = seq![top] + out;
    assert forall|j: int| 0 <= j < out.len() implies whole[j + 1] == #[trigger] out[j] by {}
    assert forall|x: u64| set_up_ids(whole).contains(x) <==> set_up_ids(out).insert(top.0).contains(x) by {
        if set_up_ids(whole).contains(x) {
            let j = choose|j: int| 0 <= j < whole.len() && #[trigger] whole[j].0 == x;
            if j > 0 {
                assert(out[j - 1].0 == x);
            }
        }
        if set_up_ids(out).contains(x) {
            let j = choose|j: int| 0 <= j < out.len() && #[trigger] out[j].0 == x;
            assert(whole[j + 1].0 == x);
        }
        if x == top.0 {
            assert(whole[0].0 == x);
        }
    }
    assert(set_up_ids(whole) =~= set_up_ids(out).insert(top.0));
}

/// Handing out the shapes of `stack`, and with each the waiters it was the
/// last missing shape of: every shape of the stack is handed out; a waiter
/// that waited for something is handed out in the same drain, or it keeps
/// waiting on exactly what it waited for less what was handed out, which is
/// not nothing. So a waiter all of whose shapes were handed out is handed out
/// too.
pub proof fn lemma_drain_releases<A>(ws: Seq<(u64, Set<u64>, EntryView<A>)>, stack: Seq<(u64, EntryView<A>)>)
    requires
        forall|i: int| 0 <= i < ws.len() ==> #[trigger] ws[i].1 != Set::<u64>::empty(),
    ensures
        ({
            let (rest, out) = drain(ws, stack);
            &&& forall|i: int| 0 <= i < stack.len() ==> set_up_ids(out).contains(#[trigger] stack[i].0)
            &&& forall|i: int| 0 <= i < ws.len() ==> set_up_ids(out).contains(#[trigger] ws[i].0) || exists|j: int|
                0 <= j < rest.len() && #[trigger] rest[j] == (ws[i].0, ws[i].1.difference(set_up_ids(out)), ws[i].2)
            &&& forall|j: int| 0 <= j < rest.len() ==> #[trigger] rest[j].1 != Set::<u64>::empty()
            &&& forall|i: int| 0 <= i < ws.len() && ws[i].1.subset_of(set_up_ids(out)) ==> set_up_ids(out).contains(#[trigger] ws[i].0)
        }),
    decreases ws.len() + stack.len(),
{
    let (rest, out) = drain(ws, stack);
    if stack.len() == 0 {
        assert forall|i: int| 0 <= i < ws.len() implies set_up_ids(out).contains(#[trigger] ws[i].0) || exists|j: int|
            0 <= j < rest.len() && #[trigger] rest[j] == (ws[i].0, ws[i].1.difference(set_up_ids(out)), ws[i].2) by {
            assert(out.len() == 0);
            assert(set_up_ids(out) =~= Set::<u64>::empty());
            assert(ws[i].1.difference(set_up_ids(out)) =~= ws[i].1);
            assert(rest[i] == (ws[i].0, ws[i].1.difference(set_up_ids(out)), ws[i].2));
        }
    } else {
        let top = stack.last();
        let d = top.0;
        let ws2 = kept(ws, d);
        let rel = released(ws, d);
        let st2 = stack.drop_last() + rel.reverse();
        lemma_split_len(ws, d);
        lemma_kept_nonempty(ws, d);
        lemma_drain_releases(ws2, st2);
        let (rest2, out2) = drain(ws2, st2);
        assert(rest == rest2);
        assert(out == seq![top] + out2);
        lemma_ids_cons(top, out2);
        let ids = set_up_ids(out);
        let ids2 = set_up_ids(out2);
        assert forall|i: int| 0 <= i < stack.len() implies ids.contains(#[trigger] stack[i].0) by {
            if i < stack.len() - 1 {
                assert(st2[i] == stack[i]);
                assert(ids2.contains(st2[i].0));
            }
        }
        assert forall|i: int| 0 <= i < ws.len() implies ids.contains(#[trigger] ws[i].0) || exists|j: int|
            0 <= j < rest.len() && #[trigger] rest[j] == (ws[i].0, ws[i].1.difference(ids), ws[i].2) by {
            lemma_split_fate(ws, d, i);
            if ws[i].1.remove(d) == Set::<u64>::empty() {
                let k = choose|k: int| 0 <= k < rel.len() && #[trigger] rel[k] == (ws[i].0, ws[i].2);
                let at = stack.len() - 1 + (rel.len() - 1 - k);
                assert(st2[at] == rel[k]);
                assert(ids2.contains(st2[at].0));
            } else {
                let k = choose|k: int| 0 <= k < ws2.len() && #[trigger] ws2[k] == (ws[i].0, ws[i].1.remove(d), ws[i].2);
                if !ids2.contains(ws2[k].0) {
                    let j = choose|j: int| 0 <= j < rest2.len() && #[trigger] rest2[j] == (ws2[k].0, ws2[k].1.difference(ids2), ws2[k].2);
                    assert(ws[i].1.remove(d).difference(ids2) =~= ws[i].1.difference(ids));
                    assert(rest[j] == (ws[i].0, ws[i].1.difference(ids), ws[i].2));
                }
            }
        }
    }
    assert forall|i: int| 0 <= i < ws.len() && ws[i].1.subset_of(set_up_ids(out)) implies set_up_ids(out).contains(#[trigger] ws[i].0) by {
        if !set_up_ids(out).contains(ws[i].0) {
            let j = choose|j: int| 0 <= j < rest.len() && #[trigger] rest[j] == (ws[i].0, ws[i].1.difference(set_up_ids(out)), ws[i].2);
            assert(ws[i].1.difference(set_up_ids(out)) =~= Set::<u64>::empty());
            assert(rest[j].1 != Set::<u64>::empty());
        }
    }
}

/// An arrival that completes `entity` (checked alone) while nothing it names
/// is missing: the entity is set up first, then, in the same call, every
/// waiter all of whose awaited shapes are set up in it; each other waiter
/// keeps waiting, on exactly what it awaited less what was set up.
pub proof fn lemma_completion_releases_waiters<A>(
    s: WaitlistView<A>,
    reg: ShapeRegistry,
    entity: u64,
    insert: ComponentWaitlistInsert<A>,
)
    requires
        forall|i: int| 0 <= i < s.waiting.len() ==> #[trigger] s.waiting[i].1 != Set::<u64>::empty(),
        inserted(s, entity, insert).1 == seq![entity],
        ready_outcome(inserted(s, entity, insert).0.incomplete[entity]) == Some(true),
        dependencies(inserted(s, entity, insert).0.incomplete[entity], reg, Set::empty(), Set::empty())
            == Some(Set::<u64>::empty()),
    ensures
        ({
            let s1 = inserted(s, entity, insert).0;
            let (rest, out) = drain(s.waiting, seq![(entity, s1.incomplete[entity])]);
            &&& insert_outcome(s, reg, entity, insert) == Some((
                WaitlistView { incomplete: s1.incomplete.remove(entity), waiting: rest },
                out,
            ))
            &&& out.len() > 0 && out[0] == (entity, s1.incomplete[entity])
            &&& forall|i: int| 0 <= i < s.waiting.len() && s.waiting[i].1.subset_of(set_up_ids(out))
                ==> set_up_ids(out).contains(#[trigger] s.waiting[i].0)
            &&& forall|i: int| 0 <= i < s.waiting.len() ==> set_up_ids(out).contains(#[trigger] s.waiting[i].0) || exists|j: int|
                0 <= j < rest.len() && #[trigger] rest[j] == (s.waiting[i].0, s.waiting[i].1.difference(set_up_ids(out)), s.waiting[i].2)
        }),
{
    let s1 = inserted(s, entity, insert).0;
    let list = seq![entity];
    let done = Seq::<(u64, EntryView<A>)>::empty();
    let e = s1.incomplete[entity];
    assert(completed_of(done, ComponentType::Vertex) == Set::<u64>::empty());
    assert(completed_of(done, ComponentType::Edge) == Set::<u64>::empty());
    assert(s1.incomplete.contains_key(entity));
    assert(s1.waiting == s.waiting);
    assert(list.drop_first().len() == 0);
    reveal_with_fuel(run, 2);
    assert(list[0] == entity);
    let (rest, out) = drain(s.waiting, seq![(entity, e)]);
    assert(done + out == out);
    assert(run(s1, list, reg, done) == run(
        WaitlistView { incomplete: s1.incomplete.remove(entity), waiting: rest },
        list.drop_first(),
        reg,
        done + out,
    ));
    reveal_with_fuel(drain, 1);
    lemma_drain_releases(s.waiting, seq![(entity, e)]);
}

/// Every component that the entry's shape needs has arrived.
pub open spec fn entry_complete<A>(e: EntryView<A>) -> bool {
    ready_outcome(e) == Some(true)
}

proof fn lemma_drain_complete<A>(ws: Seq<(u64, Set<u64>, EntryView<A>)>, stack: Seq<(u64, EntryView<A>)>)
    requires
        forall|i: int| 0 <= i < ws.len() ==> entry_complete(#[trigger] ws[i].2),
        forall|i: int| 0 <= i < stack.len() ==> entry_complete(#[trigger] stack[i].1),
    ensures
        forall|i: int| 0 <= i < drain(ws, stack).0.len() ==> entry_complete(#[trigger] drain(ws, stack).0[i].2),
        forall|i: int| 0 <= i < drain(ws, stack).1.len() ==> entry_complete(#[trigger] drain(ws, stack).1[i].1),
    decreases ws.len() + stack.len(),
{
    if stack.len() > 0 {
        let top = stack.last();
        lemma_split_len(ws, top.0);
        lemma_split_keeps(ws, top.0, |e: EntryView<A>| entry_complete(e));
        let rel = released(ws, top.0);
        let next = stack.drop_last() + rel.reverse();
        assert forall|i: int| 0 <= i < next.len() implies entry_complete(#[trigger] next[i].1) by {
            if i < stack.len() - 1 {
                assert(next[i] == stack[i]);
            } else {
                let j = i - (stack.len() - 1);
                assert(next[i] == rel.reverse()[j]);
                assert(rel.reverse()[j] == rel[rel.len() - 1 - j]);
            }
        }
        assert forall|i: int| 0 <= i < kept(ws, top.0).len() implies entry_complete(#[trigger] kept(ws, top.0)[i].2) by {}
        lemma_drain_complete(kept(ws, top.0), next);
        let out = drain(kept(ws, top.0), next).1;
        assert forall|i: int| 0 <= i < (seq![top] + out).len() implies entry_complete(#[trigger] (seq![top] + out)[i].1) by {
            if i > 0 {
                assert((seq![top] + out)[i] == out[i - 1]);
            }
        }
    }
}

proof fn lemma_run_complete<A>(s: WaitlistView<A>, list: Seq<u64>, reg: ShapeRegistry, done: Seq<(u64, EntryView<A>)>)
    requires
        forall|i: int| 0 <= i < s.waiting.len() ==> entry_complete(#[trigger] s.waiting[i].2),
        forall|i: int| 0 <= i < done.len() ==> entry_complete(#[trigger] done[i].1),
        run(s, list, reg, done) is Some,
    ensures
        forall|i: int| 0 <= i < run(s, list, reg, done).unwrap().0.waiting.len()
            ==> entry_complete(#[trigger] run(s, list, reg, done).unwrap().0.waiting[i].2),
        forall|i: int| 0 <= i < run(s, list, reg, done).unwrap().1.len()
            ==> entry_complete(#[trigger] run(s, list, reg, done).unwrap().1[i].1),
    decreases list.len(),
{
    if list.len() > 0 {
        let x = list[0];
        let e = s.incomplete[x];
        if ready_outcome(e) == Some(true) {
            let inc = s.incomplete.remove(x);
            let deps = dependencies(e, reg, completed_of(done, ComponentType::Vertex), completed_of(done, ComponentType::Edge))->0;
            if deps == Set::<u64>::empty() {
                let stack = seq![(x, e)];
                assert forall|i: int| 0 <= i < stack.len() implies entry_complete(#[trigger] stack[i].1) by {}
                lemma_drain_complete(s.waiting, stack);
                let (ws, out) = drain(s.waiting, stack);
                assert forall|i: int| 0 <= i < (done + out).len() implies entry_complete(#[trigger] (done + out)[i].1) by {
                    if i >= done.len() {
                        assert((done + out)[i] == out[i - done.len()]);
                    }
                }
                lemma_run_complete(WaitlistView { incomplete: inc, waiting: ws }, list.drop_first(), reg, done + out);
            } else {
                let ws = s.waiting.push((x, deps, e));
                assert forall|i: int| 0 <= i < ws.len() implies entry_complete(#[trigger] ws[i].2) by {
                    if i < s.waiting.len() {
                        assert(ws[i] == s.waiting[i]);
                    }
                }
                lemma_run_complete(WaitlistView { incomplete: inc, waiting: ws }, list.drop_first(), reg, done);
            }
        }
    }
}

/// The waitlist hands out only complete shapes, and only complete shapes
/// wait for others: in particular a transform is never handed out before
/// its skin or scene entity (and, in a model, its shape's name) arrived, nor
/// anything before the file it belongs to.
pub proof fn lemma_only_complete_entries_handed_out<A>(
    s: WaitlistView<A>,
    reg: ShapeRegistry,
    entity: u64,
    insert: ComponentWaitlistInsert<A>,
)
    requires
        forall|i: int| 0 <= i < s.waiting.len() ==> entry_complete(#[trigger] s.waiting[i].2),
        insert_outcome(s, reg, entity, insert) is Some,
    ensures
        ({
            let (s2, out) = insert_outcome(s, reg, entity, insert).unwrap();
            &&& forall|i: int| 0 <= i < s2.waiting.len() ==> entry_complete(#[trigger] s2.waiting[i].2)
            &&& forall|i: int| 0 <= i < out.len() ==> entry_complete(#[trigger] out[i].1)
            &&& forall|i: int| 0 <= i < out.len() ==> (#[trigger] out[i].1).file_entity is Some
            &&& forall|i: int| 0 <= i < out.len() && (#[trigger] out[i].1).component_type == Some(ComponentType::NetTransform)
                ==> out[i].1.skin_or_scene_entity is Some
        }),
{
    let (s1, list) = inserted(s, entity, insert);
    assert(s1.waiting == s.waiting);
    lemma_run_complete(s1, list, reg, Seq::empty());
    let out = insert_outcome(s, reg, entity, insert).unwrap().1;
    assert forall|i: int| 0 <= i < out.len() implies (#[trigger] out[i].1).file_entity is Some by {
        lemma_ready_exactly_when_components_arrived(out[i].1);
    }
    assert forall|i: int| 0 <= i < out.len() && (#[trigger] out[i].1).component_type == Some(ComponentType::NetTransform)
        implies out[i].1.skin_or_scene_entity is Some by {
        lemma_ready_exactly_when_components_arrived(out[i].1);
    }
}

} // verus!
