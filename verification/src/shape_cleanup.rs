use vstd::prelude::*;
use crate::canvas::Canvas;
use crate::edge_laws::{edges_consistent, lemma_cleanup_edge_keeps_edges_consistent};
use crate::input::{InputManager, InputManagerView};
use crate::shape_data::{CanvasShape, FaceKey};
use crate::shape_graph::{EdgeManager, EdgeManagerView, FaceManager, FaceManagerView, VertexManager, VertexManagerView};

verus! {

/// The three registries after the triangle `k`, which has its 2d face, is
/// forgotten: at its vertices, at its edges, and with its 2d face.
pub open spec fn key_unregistered(vm: VertexManagerView, em: EdgeManagerView, fm: FaceManagerView, k: FaceKey) -> (
    VertexManagerView,
    EdgeManagerView,
    FaceManagerView,
) {
    let d = fm.data(k);
    let removed = FaceManagerView { face_keys: fm.face_keys.remove(k), ..fm };
    (
        vm.face_removed(k.vertex_3d_a, k).face_removed(k.vertex_3d_b, k).face_removed(k.vertex_3d_c, k),
        em.face_removed(d.edge_3d_a, k).face_removed(d.edge_3d_b, k).face_removed(d.edge_3d_c, k),
        FaceManagerView { faces_2d: removed.faces_2d.remove(d.entity_2d), ..removed },
    )
}

/// The registries after the triangles `ks` are forgotten, in order.
pub open spec fn keys_unregistered(vm: VertexManagerView, em: EdgeManagerView, fm: FaceManagerView, ks: Seq<FaceKey>) -> (
    VertexManagerView,
    EdgeManagerView,
    FaceManagerView,
)
    decreases ks.len(),
{
    if ks.len() == 0 {
        (vm, em, fm)
    } else {
        let (v, e, f) = keys_unregistered(vm, em, fm, ks.drop_last());
        key_unregistered(v, e, f, ks.last())
    }
}

/// A triangle that can be forgotten: it has its 2d face, and its edges are
/// registered.
pub open spec fn removable_face(em: EdgeManagerView, fm: FaceManagerView, k: FaceKey) -> bool {
    &&& fm.has_2d_face(k)
    &&& em.edges.contains_key(fm.data(k).edge_3d_a)
    &&& em.edges.contains_key(fm.data(k).edge_3d_b)
    &&& em.edges.contains_key(fm.data(k).edge_3d_c)
}

/// The hover after the 2d faces `faces` and the 2d edge `edge_2d` are gone.
pub open spec fn hover_after(h: Option<(u64, CanvasShape)>, faces: Seq<u64>, edge_2d: Option<u64>) -> Option<(u64, CanvasShape)> {
    match h {
        Some((x, CanvasShape::Face)) => if faces.contains(x) { None } else { h },
        Some((x, CanvasShape::Edge)) => if edge_2d == Some(x) { None } else { h },
        _ => h,
    }
}

/// `after` is `before` once the 3d edge `edge_3d` was forgotten, and first,
/// in some order without repeats, every triangle on it; `r` holds the 2d edge
/// and the 2d faces of those triangles, in that order.
pub open spec fn edge_cleaned_up(
    before: (VertexManagerView, EdgeManagerView, FaceManagerView),
    edge_3d: u64,
    r: (u64, Seq<u64>),
    after: (VertexManagerView, EdgeManagerView, FaceManagerView),
) -> bool {
    let (vm0, em0, fm0) = before;
    exists|ks: Seq<FaceKey>| #![trigger ks.to_set()] {
        let (v1, e1, f1) = keys_unregistered(vm0, em0, fm0, ks);
        let d = em0.edges[edge_3d];
        &&& ks.to_set() == em0.edges[edge_3d].faces
        &&& ks.no_duplicates()
        &&& ks.len() == r.1.len()
        &&& forall|i: int| 0 <= i < ks.len() ==> r.1[i] == #[trigger] fm0.data(ks[i]).entity_2d
        &&& r.0 == d.entity_2d
        &&& after.2 == f1
        &&& after.1 == (EdgeManagerView { edges: e1.edges.remove(edge_3d), edges_2d: e1.edges_2d.remove(r.0), ..e1 })
        &&& after.0 == v1.edge_removed(d.vertex_a, edge_3d).edge_removed(d.vertex_b, edge_3d)
    }
}

impl FaceManager {
    /// Forgets the deleted triangle `key`, which has its 2d face: the 2d face
    /// leaves the registries (and the hover), and the canvas shapes get a
    /// resync. Returns the 2d face, which is then despawned.
    pub fn cleanup_deleted_face_key(
        &mut self,
        canvas: &mut Canvas,
        input_manager: &mut InputManager,
        vertex_manager: &mut VertexManager,
        edge_manager: &mut EdgeManager,
        key: &FaceKey,
    ) -> (face_2d: u64)
        requires
            old(self).wf(),
            old(vertex_manager).wf(),
            old(edge_manager).wf(),
            removable_face(old(edge_manager)@, old(self)@, *key),
        ensures
            final(self).wf(),
            final(vertex_manager).wf(),
            final(edge_manager).wf(),
            face_2d == old(self)@.data(*key).entity_2d,
            (final(vertex_manager)@, final(edge_manager)@, final(self)@)
                == key_unregistered(old(vertex_manager)@, old(edge_manager)@, old(self)@, *key),
            final(input_manager)@ == (InputManagerView {
                hovered_entity: hover_after(old(input_manager)@.hovered_entity, seq![face_2d], None),
                ..old(input_manager)@
            }),
            *final(canvas) == (Canvas { resync_shapes: 2, ..*old(canvas) }),
    {
        let face_2d = self.unregister_face_key(vertex_manager, edge_manager, key).unwrap();
        input_manager.clear_hover_on(face_2d, CanvasShape::Face);
        canvas.queue_resync_shapes();
        proof {
            let h = old(input_manager)@.hovered_entity;
            assert(seq![face_2d].contains(face_2d) || true);
            if let Some((x, CanvasShape::Face)) = h {
                if seq![face_2d].contains(x) {
                    let j = choose|j: int| 0 <= j < 1 && seq![face_2d][j] == x;
                    assert(x == face_2d);
                } else {
                    assert(seq![face_2d][0] == face_2d);
                }
            }
        }
        face_2d
    }
}

impl EdgeManager {
    /// Forgets the deleted 3d edge `edge_3d` and, first, every triangle on it
    /// (each must have its 2d face and registered edges): returns its 2d edge
    /// and the 2d faces of the triangles, in the order the edge lists them;
    /// these leave the hover, and the canvas shapes get a resync.
    #[verifier::spinoff_prover]
    pub fn cleanup_deleted_edge(
        &mut self,
        canvas: &mut Canvas,
        input_manager: &mut InputManager,
        vertex_manager: &mut VertexManager,
        face_manager: &mut FaceManager,
        edge_3d: u64,
    ) -> (r: (u64, Vec<u64>))
        requires
            old(self).wf(),
            old(vertex_manager).wf(),
            old(face_manager).wf(),
            old(self)@.edges.contains_key(edge_3d),
            forall|k: FaceKey| #[trigger] old(self)@.edges[edge_3d].faces.contains(k)
                ==> removable_face(old(self)@, old(face_manager)@, k),
        ensures
            final(self).wf(),
            final(vertex_manager).wf(),
            final(face_manager).wf(),
            edge_cleaned_up(
                (old(vertex_manager)@, old(self)@, old(face_manager)@),
                edge_3d,
                (r.0, r.1@),
                (final(vertex_manager)@, final(self)@, final(face_manager)@),
            ),
            final(input_manager)@ == (InputManagerView {
                hovered_entity: hover_after(old(input_manager)@.hovered_entity, r.1@, Some(r.0)),
                ..old(input_manager)@
            }),
            *final(canvas) == (Canvas { resync_shapes: 2, ..*old(canvas) }),
            edges_consistent(old(vertex_manager)@, old(self)@) ==> edges_consistent(final(vertex_manager)@, final(self)@),
    {
        let ghost vm0 = vertex_manager@;
        let ghost em0 = self@;
        let ghost fm0 = face_manager@;
        let ghost h0 = input_manager@.hovered_entity;
        let ghost in0 = input_manager@;
        let keys = self.edge_connected_faces(edge_3d).unwrap();
        let ghost ks = keys@;
        let mut faces_2d: Vec<u64> = Vec::new();
        let mut i: usize = 0;
        canvas.queue_resync_shapes();
        proof {
            assert forall|j: int| 0 <= j < ks.len() implies #[trigger] face_manager@.face_keys.contains_key(ks[j])
                && face_manager@.face_keys[ks[j]] == fm0.face_keys[ks[j]] by {
                assert(ks.to_set().contains(ks[j]));
                assert(em0.edges[edge_3d].faces.contains(ks[j]));
            }
            assert(ks.subrange(0, 0) =~= Seq::<FaceKey>::empty());
            assert(faces_2d@ =~= Seq::<u64>::empty());
            assert(hover_after(h0, faces_2d@, None) == h0);
        }
        while i < keys.len()
            invariant
                i <= ks.len(),
                ks == keys@,
                ks.no_duplicates(),
                ks.to_set() == em0.edges[edge_3d].faces,
                forall|k: FaceKey| #[trigger] em0.edges[edge_3d].faces.contains(k) ==> removable_face(em0, fm0, k),
                self.wf(),
                vertex_manager.wf(),
                face_manager.wf(),
                (vertex_manager@, self@, face_manager@) == keys_unregistered(vm0, em0, fm0, ks.subrange(0, i as int)),
                self@.edges.dom() == em0.edges.dom(),
                self@.edges[edge_3d].entity_2d == em0.edges[edge_3d].entity_2d,
                self@.edges[edge_3d].vertex_a == em0.edges[edge_3d].vertex_a,
                self@.edges[edge_3d].vertex_b == em0.edges[edge_3d].vertex_b,
                forall|j: int| i <= j < ks.len() ==> #[trigger] face_manager@.face_keys.contains_key(ks[j])
                    && face_manager@.face_keys[ks[j]] == fm0.face_keys[ks[j]],
                faces_2d@.len() == i,
                forall|j: int| 0 <= j < i ==> faces_2d@[j] == #[trigger] fm0.data(ks[j]).entity_2d,
                input_manager@ == (InputManagerView { hovered_entity: hover_after(h0, faces_2d@, None), ..in0 }),
                *canvas == (Canvas { resync_shapes: 2, ..*old(canvas) }),
            decreases ks.len() - i,
        {
            let k = keys[i];
            let ghost vmc = vertex_manager@;
            let ghost emc = self@;
            let ghost fmc = face_manager@;
            let ghost fs = faces_2d@;
            proof {
                assert(ks.contains(k));
                assert(em0.edges[edge_3d].faces.contains(k));
                assert(face_manager@.face_keys.contains_key(ks[i as int]));
                assert(face_manager@.face_keys[ks[i as int]] == fm0.face_keys[ks[i as int]]);
            }
            let f2 = face_manager.cleanup_deleted_face_key(canvas, input_manager, vertex_manager, self, &k);
            faces_2d.push(f2);
            proof {
                assert(ks.subrange(0, i + 1).drop_last() == ks.subrange(0, i as int));
                assert(ks.subrange(0, i + 1).last() == k);
                assert forall|j: int| i + 1 <= j < ks.len() implies #[trigger] face_manager@.face_keys.contains_key(ks[j])
                    && face_manager@.face_keys[ks[j]] == fm0.face_keys[ks[j]] by {
                    assert(ks[j] != ks[i as int]);
                }
                assert(self@.edges.dom() =~= em0.edges.dom());
                assert(faces_2d@ == fs.push(f2));
                let h = h0;
                assert(hover_after(hover_after(h, fs, None), seq![f2], None) == hover_after(h, fs.push(f2), None)) by {
                    if let Some((x, CanvasShape::Face)) = h {
                        if fs.push(f2).contains(x) {
                            let j = choose|j: int| 0 <= j < fs.push(f2).len() && fs.push(f2)[j] == x;
                            if j < fs.len() {
                                assert(fs[j] == x);
                            } else {
                                assert(seq![f2][0] == x);
                            }
                        } else {
                            assert(fs.push(f2)[fs.len() as int] == f2);
                            if fs.contains(x) {
                                let j = choose|j: int| 0 <= j < fs.len() && fs[j] == x;
                                assert(fs.push(f2)[j] == x);
                            }
                        }
                    }
                }
            }
            i = i + 1;
        }
        proof {
            assert(ks.subrange(0, ks.len() as int) == ks);
        }
        let edge_2d = self.unregister_3d_edge(vertex_manager, edge_3d).unwrap();
        input_manager.clear_hover_on(edge_2d, CanvasShape::Edge);
        proof {
            let h = h0;
            assert(input_manager@.hovered_entity == hover_after(h, faces_2d@, Some(edge_2d))) by {
                match h {
                    Some((x, CanvasShape::Face)) => {},
                    Some((x, CanvasShape::Edge)) => {},
                    _ => {},
                }
            }
        }
        proof {
            assert(ks.to_set() == em0.edges[edge_3d].faces);
            if edges_consistent(vm0, em0) {
                lemma_cleanup_edge_keeps_edges_consistent(
                    (vm0, em0, fm0),
                    edge_3d,
                    (edge_2d, faces_2d@),
                    (vertex_manager@, self@, face_manager@),
                );
            }
        }
        (edge_2d, faces_2d)
    }
}

} // verus!
