use vstd::prelude::*;
use crate::shape_cleanup::{edge_cleaned_up, key_unregistered, keys_unregistered, removable_face};
use crate::shape_data::{Edge3dView, FaceKey, Vertex3dView};
use crate::shape_graph::{EdgeManagerView, FaceManagerView, VertexManagerView};

verus! {

/// The 2d and 3d edge maps are inverse to each other, every registered edge
/// has registered ends that list it, and a registered vertex lists only
/// registered edges that it ends.
pub open spec fn edges_consistent(vm: VertexManagerView, em: EdgeManagerView) -> bool {
    &&& forall|e2: u64| #[trigger] em.edges_2d.contains_key(e2)
        ==> em.edges.contains_key(em.edges_2d[e2]) && em.edges[em.edges_2d[e2]].entity_2d == e2
    &&& forall|e3: u64| #[trigger] em.edges.contains_key(e3)
        ==> em.edges_2d.contains_key(em.edges[e3].entity_2d) && em.edges_2d[em.edges[e3].entity_2d] == e3
    &&& forall|e3: u64| #[trigger] em.edges.contains_key(e3) ==> {
        let d = em.edges[e3];
        &&& vm.vertices.contains_key(d.vertex_a) && vm.vertices[d.vertex_a].edges.contains(e3)
        &&& vm.vertices.contains_key(d.vertex_b) && vm.vertices[d.vertex_b].edges.contains(e3)
    }
    &&& forall|v: u64, e3: u64| vm.vertices.contains_key(v) && #[trigger] vm.vertices[v].edges.contains(e3)
        ==> em.edges.contains_key(e3) && (em.edges[e3].vertex_a == v || em.edges[e3].vertex_b == v)
}

/// The vertices and the edges that the consistency of the edge maps reads
/// are the same in both pairs of registries.
pub open spec fn same_edge_links(vm1: VertexManagerView, em1: EdgeManagerView, vm2: VertexManagerView, em2: EdgeManagerView) -> bool {
    &&& vm1.vertices.dom() == vm2.vertices.dom()
    &&& forall|v: u64| #[trigger] vm1.vertices.contains_key(v) ==> vm1.vertices[v].edges == vm2.vertices[v].edges
    &&& em1.edges.dom() == em2.edges.dom()
    &&& forall|e: u64| #[trigger] em1.edges.contains_key(e) ==> {
        &&& em1.edges[e].entity_2d == em2.edges[e].entity_2d
        &&& em1.edges[e].vertex_a == em2.edges[e].vertex_a
        &&& em1.edges[e].vertex_b == em2.edges[e].vertex_b
    }
    &&& em1.edges_2d == em2.edges_2d
}

proof fn lemma_same_links_consistent(vm1: VertexManagerView, em1: EdgeManagerView, vm2: VertexManagerView, em2: EdgeManagerView)
    requires
        edges_consistent(vm1, em1),
        same_edge_links(vm1, em1, vm2, em2),
    ensures
        edges_consistent(vm2, em2),
{
    assert forall|e2: u64| #[trigger] em2.edges_2d.contains_key(e2) implies em2.edges.contains_key(em2.edges_2d[e2])
        && em2.edges[em2.edges_2d[e2]].entity_2d == e2 by {
        assert(em1.edges_2d.contains_key(e2));
        assert(em1.edges.contains_key(em1.edges_2d[e2]));
    }
    assert forall|e3: u64| #[trigger] em2.edges.contains_key(e3) implies em2.edges_2d.contains_key(em2.edges[e3].entity_2d)
        && em2.edges_2d[em2.edges[e3].entity_2d] == e3 by {
        assert(em1.edges.contains_key(e3));
    }
    assert forall|e3: u64| #[trigger] em2.edges.contains_key(e3) implies {
        let d = em2.edges[e3];
        &&& vm2.vertices.contains_key(d.vertex_a) && vm2.vertices[d.vertex_a].edges.contains(e3)
        &&& vm2.vertices.contains_key(d.vertex_b) && vm2.vertices[d.vertex_b].edges.contains(e3)
    } by {
        assert(em1.edges.contains_key(e3));
        let d = em1.edges[e3];
        assert(vm1.vertices.contains_key(d.vertex_a));
        assert(vm1.vertices.contains_key(d.vertex_b));
    }
    assert forall|v: u64, e3: u64| vm2.vertices.contains_key(v) && #[trigger] vm2.vertices[v].edges.contains(e3) implies em2.edges.contains_key(e3)
        && (em2.edges[e3].vertex_a == v || em2.edges[e3].vertex_b == v) by {
        assert(vm1.vertices.contains_key(v));
        assert(vm1.vertices[v].edges.contains(e3));
        assert(em1.edges.contains_key(e3));
    }
}

/// No registries at all are consistent.
pub proof fn lemma_empty_edges_consistent()
    ensures
        edges_consistent(
            VertexManagerView { vertices: Map::empty(), vertices_2d: Map::empty() },
            EdgeManagerView { resync: false, edges: Map::empty(), edges_2d: Map::empty(), angle_visibility: false },
        ),
{
}

/// Registering a new 3d vertex (as `register_3d_vertex` does) keeps the edge
/// maps consistent.
pub proof fn lemma_register_vertex_keeps_edges_consistent(vm: VertexManagerView, em: EdgeManagerView, v: u64, v2: u64)
    requires
        edges_consistent(vm, em),
        !vm.vertices.contains_key(v),
    ensures
        edges_consistent(
            VertexManagerView { vertices: vm.vertices.insert(v, Vertex3dView::fresh(v2)), vertices_2d: vm.vertices_2d.insert(v2, v) },
            em,
        ),
{
    let vm2 = VertexManagerView { vertices: vm.vertices.insert(v, Vertex3dView::fresh(v2)), vertices_2d: vm.vertices_2d.insert(v2, v) };
    assert forall|e3: u64| #[trigger] em.edges.contains_key(e3) implies {
        let d = em.edges[e3];
        &&& vm2.vertices.contains_key(d.vertex_a) && vm2.vertices[d.vertex_a].edges.contains(e3)
        &&& vm2.vertices.contains_key(d.vertex_b) && vm2.vertices[d.vertex_b].edges.contains(e3)
    } by {
        let d = em.edges[e3];
        assert(vm.vertices.contains_key(d.vertex_a));
        assert(vm.vertices.contains_key(d.vertex_b));
    }
    assert forall|w: u64, e3: u64| vm2.vertices.contains_key(w) && #[trigger] vm2.vertices[w].edges.contains(e3) implies em.edges.contains_key(e3)
        && (em.edges[e3].vertex_a == w || em.edges[e3].vertex_b == w) by {
        if w == v {
            assert(!Vertex3dView::fresh(v2).edges.contains(e3));
        } else {
            assert(vm.vertices[w].edges.contains(e3));
        }
    }
}

/// Registering a new 3d edge with a new 2d edge between registered vertices
/// (as `register_3d_edge` does) keeps the edge maps consistent.
pub proof fn lemma_register_edge_keeps_edges_consistent(
    vm: VertexManagerView,
    em: EdgeManagerView,
    e3: u64,
    e2: u64,
    a: u64,
    b: u64,
    angles: Option<(u64, u64, u64)>,
)
    requires
        edges_consistent(vm, em),
        !em.edges.contains_key(e3),
        !em.edges_2d.contains_key(e2),
        vm.vertices.contains_key(a),
        vm.vertices.contains_key(b),
    ensures
        edges_consistent(
            vm.edge_added(a, e3).edge_added(b, e3),
            EdgeManagerView {
                edges: em.edges.insert(e3, Edge3dView { entity_2d: e2, vertex_a: a, vertex_b: b, faces: Set::empty(), angle_entities: angles }),
                edges_2d: em.edges_2d.insert(e2, e3),
                ..em
            },
        ),
{
    let vm2 = vm.edge_added(a, e3).edge_added(b, e3);
    let em2 = EdgeManagerView {
        edges: em.edges.insert(e3, Edge3dView { entity_2d: e2, vertex_a: a, vertex_b: b, faces: Set::empty(), angle_entities: angles }),
        edges_2d: em.edges_2d.insert(e2, e3),
        ..em
    };
    assert forall|x: u64| #[trigger] em2.edges_2d.contains_key(x) implies em2.edges.contains_key(em2.edges_2d[x])
        && em2.edges[em2.edges_2d[x]].entity_2d == x by {
        if x != e2 {
            assert(em.edges_2d.contains_key(x));
            assert(em.edges.contains_key(em.edges_2d[x]));
        }
    }
    assert forall|x: u64| #[trigger] em2.edges.contains_key(x) implies em2.edges_2d.contains_key(em2.edges[x].entity_2d)
        && em2.edges_2d[em2.edges[x].entity_2d] == x by {
        if x != e3 {
            assert(em.edges.contains_key(x));
        }
    }
    assert forall|x: u64| #[trigger] em2.edges.contains_key(x) implies {
        let d = em2.edges[x];
        &&& vm2.vertices.contains_key(d.vertex_a) && vm2.vertices[d.vertex_a].edges.contains(x)
        &&& vm2.vertices.contains_key(d.vertex_b) && vm2.vertices[d.vertex_b].edges.contains(x)
    } by {
        if x != e3 {
            assert(em.edges.contains_key(x));
            let d = em.edges[x];
            assert(vm.vertices[d.vertex_a].edges.contains(x));
            assert(vm.vertices[d.vertex_b].edges.contains(x));
        }
    }
    assert forall|w: u64, x: u64| vm2.vertices.contains_key(w) && #[trigger] vm2.vertices[w].edges.contains(x) implies em2.edges.contains_key(x)
        && (em2.edges[x].vertex_a == w || em2.edges[x].vertex_b == w) by {
        if x != e3 {
            assert(vm.vertices[w].edges.contains(x));
        }
    }
}

/// Forgetting a registered 3d edge and its 2d edge (as
/// `unregister_3d_edge` does) keeps the edge maps consistent.
pub proof fn lemma_unregister_edge_keeps_edges_consistent(vm: VertexManagerView, em: EdgeManagerView, e3: u64)
    requires
        edges_consistent(vm, em),
        em.edges.contains_key(e3),
    ensures
        ({
            let d = em.edges[e3];
            edges_consistent(
                vm.edge_removed(d.vertex_a, e3).edge_removed(d.vertex_b, e3),
                EdgeManagerView { edges: em.edges.remove(e3), edges_2d: em.edges_2d.remove(d.entity_2d), ..em },
            )
        }),
{
    let d = em.edges[e3];
    let vm2 = vm.edge_removed(d.vertex_a, e3).edge_removed(d.vertex_b, e3);
    let em2 = EdgeManagerView { edges: em.edges.remove(e3), edges_2d: em.edges_2d.remove(d.entity_2d), ..em };
    assert forall|x: u64| #[trigger] em2.edges_2d.contains_key(x) implies em2.edges.contains_key(em2.edges_2d[x])
        && em2.edges[em2.edges_2d[x]].entity_2d == x by {
        assert(em.edges_2d.contains_key(x));
        assert(em.edges.contains_key(em.edges_2d[x]));
    }
    assert forall|x: u64| #[trigger] em2.edges.contains_key(x) implies em2.edges_2d.contains_key(em2.edges[x].entity_2d)
        && em2.edges_2d[em2.edges[x].entity_2d] == x by {
        assert(em.edges.contains_key(x));
    }
    assert forall|x: u64| #[trigger] em2.edges.contains_key(x) implies {
        let dx = em2.edges[x];
        &&& vm2.vertices.contains_key(dx.vertex_a) && vm2.vertices[dx.vertex_a].edges.contains(x)
        &&& vm2.vertices.contains_key(dx.vertex_b) && vm2.vertices[dx.vertex_b].edges.contains(x)
    } by {
        assert(em.edges.contains_key(x));
        let dx = em.edges[x];
        assert(vm.vertices[dx.vertex_a].edges.contains(x));
        assert(vm.vertices[dx.vertex_b].edges.contains(x));
    }
    assert forall|w: u64, x: u64| vm2.vertices.contains_key(w) && #[trigger] vm2.vertices[w].edges.contains(x) implies em2.edges.contains_key(x)
        && (em2.edges[x].vertex_a == w || em2.edges[x].vertex_b == w) by {
        assert(vm.vertices[w].edges.contains(x));
    }
}

proof fn lemma_keys_unregistered_links(vm: VertexManagerView, em: EdgeManagerView, fm: FaceManagerView, ks: Seq<FaceKey>)
    requires
        ks.no_duplicates(),
        forall|i: int| 0 <= i < ks.len() ==> removable_face(em, fm, #[trigger] ks[i]),
    ensures
        same_edge_links(vm, em, keys_unregistered(vm, em, fm, ks).0, keys_unregistered(vm, em, fm, ks).1),
        forall|k: FaceKey| !ks.contains(k) ==> (#[trigger] keys_unregistered(vm, em, fm, ks).2.face_keys.contains_key(k)
            <==> fm.face_keys.contains_key(k)) && keys_unregistered(vm, em, fm, ks).2.face_keys[k] == fm.face_keys[k],
    decreases ks.len(),
{
    if ks.len() > 0 {
        let pre = ks.drop_last();
        assert forall|i: int| 0 <= i < pre.len() implies removable_face(em, fm, #[trigger] pre[i]) by {
            assert(pre[i] == ks[i]);
        }
        lemma_keys_unregistered_links(vm, em, fm, pre);
        let (v, e, f) = keys_unregistered(vm, em, fm, pre);
        let k = ks.last();
        assert(removable_face(em, fm, ks[ks.len() - 1]));
        assert(!pre.contains(k)) by {
            if pre.contains(k) {
                let j = choose|j: int| 0 <= j < pre.len() && pre[j] == k;
                assert(ks[j] == ks[ks.len() - 1]);
            }
        }
        assert(f.face_keys.contains_key(k) <==> fm.face_keys.contains_key(k));
        assert(f.face_keys[k] == fm.face_keys[k]);
        let (v2, e2, f2) = key_unregistered(v, e, f, k);
        assert(v2.vertices.dom() =~= v.vertices.dom());
        assert(e2.edges.dom() =~= e.edges.dom());
        assert forall|k2: FaceKey| !ks.contains(k2) implies (#[trigger] f2.face_keys.contains_key(k2) <==> fm.face_keys.contains_key(k2))
            && f2.face_keys[k2] == fm.face_keys[k2] by {
            assert(!pre.contains(k2)) by {
                if pre.contains(k2) {
                    let j = choose|j: int| 0 <= j < pre.len() && pre[j] == k2;
                    assert(ks[j] == pre[j]);
                }
            }
            assert(k2 != k);
            assert(f.face_keys.contains_key(k2) <==> fm.face_keys.contains_key(k2));
        }
    }
}

/// Cleaning up a deleted 3d edge (as `EdgeManager::cleanup_deleted_edge`
/// does: its triangles, then the edge) keeps the edge maps consistent.
pub proof fn lemma_cleanup_edge_keeps_edges_consistent(
    before: (VertexManagerView, EdgeManagerView, FaceManagerView),
    e3: u64,
    r: (u64, Seq<u64>),
    after: (VertexManagerView, EdgeManagerView, FaceManagerView),
)
    requires
        edges_consistent(before.0, before.1),
        before.1.edges.contains_key(e3),
        forall|k: FaceKey| #[trigger] before.1.edges[e3].faces.contains(k) ==> removable_face(before.1, before.2, k),
        edge_cleaned_up(before, e3, r, after),
    ensures
        edges_consistent(after.0, after.1),
{
    let (vm0, em0, fm0) = before;
    let ks = choose|ks: Seq<FaceKey>| #![trigger ks.to_set()] {
        let (v1, e1, f1) = keys_unregistered(vm0, em0, fm0, ks);
        let d = em0.edges[e3];
        &&& ks.to_set() == em0.edges[e3].faces
        &&& ks.no_duplicates()
        &&& ks.len() == r.1.len()
        &&& forall|i: int| 0 <= i < ks.len() ==> r.1[i] == #[trigger] fm0.data(ks[i]).entity_2d
        &&& r.0 == d.entity_2d
        &&& after.2 == f1
        &&& after.1 == (EdgeManagerView { edges: e1.edges.remove(e3), edges_2d: e1.edges_2d.remove(r.0), ..e1 })
        &&& after.0 == v1.edge_removed(d.vertex_a, e3).edge_removed(d.vertex_b, e3)
    };
    let (v1, e1, f1) = keys_unregistered(vm0, em0, fm0, ks);
    assert forall|i: int| 0 <= i < ks.len() implies removable_face(em0, fm0, #[trigger] ks[i]) by {
        assert(ks.to_set().contains(ks[i]));
    }
    lemma_keys_unregistered_links(vm0, em0, fm0, ks);
    lemma_same_links_consistent(vm0, em0, v1, e1);
    assert(e1.edges.contains_key(e3));
    lemma_unregister_edge_keeps_edges_consistent(v1, e1, e3);
}

} // verus!
