use vstd::prelude::*;
use crate::shape_data::{FaceData, FaceKey};
use crate::shape_graph::{
    face_registered, shares_one_edge, EdgeManager, EdgeManagerView, FaceManager, FaceManagerView, VertexManager,
    VertexManagerView,
};

verus! {

/// The queue of new faces without the entries of the triangle `key`.
pub open spec fn queue_without(queue: Seq<(FaceKey, u64)>, key: FaceKey) -> Seq<(FaceKey, u64)>
    decreases queue.len(),
{
    if queue.len() == 0 {
        Seq::empty()
    } else {
        let rest = queue_without(queue.drop_last(), key);
        if queue.last().0 == key {
            rest
        } else {
            rest.push(queue.last())
        }
    }
}

/// The faces once the triangle `key` left the queue of new faces.
pub open spec fn dequeued(fm: FaceManagerView, key: FaceKey) -> FaceManagerView {
    FaceManagerView { new_face_keys: queue_without(fm.new_face_keys, key), ..fm }
}

proof fn lemma_filter_is_queue_without(queue: Seq<(FaceKey, u64)>, key: FaceKey, keep: spec_fn((FaceKey, u64)) -> bool)
    requires
        forall|e: (FaceKey, u64)| #[trigger] keep(e) == (e.0 != key),
    ensures
        queue.filter(keep) == queue_without(queue, key),
    decreases queue.len(),
{
    reveal_with_fuel(Seq::filter, 1);
    if queue.len() > 0 {
        lemma_filter_is_queue_without(queue.drop_last(), key, keep);
    }
}

/// The faces once the networked 3d face `entity_3d` was linked to the
/// triangle `key`, which has its 2d face.
pub open spec fn face_3d_linked(fm: FaceManagerView, entity_3d: u64, key: FaceKey) -> FaceManagerView {
    FaceManagerView {
        faces_3d: fm.faces_3d.insert(entity_3d, key),
        face_keys: fm.face_keys.insert(key, Some(FaceData { entity_3d: Some(entity_3d), ..fm.data(key) })),
        ..fm
    }
}

/// The registries once the networked 3d face `entity_3d` of the triangle
/// `key`, in `file`, was set up, where `face_2d` is the 2d face made for it
/// if it had none.
pub open spec fn face_set_up(
    before: (VertexManagerView, EdgeManagerView, FaceManagerView),
    file: u64,
    key: FaceKey,
    entity_3d: u64,
    face_2d: u64,
) -> (VertexManagerView, EdgeManagerView, FaceManagerView) {
    let (vm, em, fm) = before;
    let fm1 = dequeued(fm, key);
    if fm.has_2d_face(key) {
        (vm, em, face_3d_linked(fm1, entity_3d, key))
    } else {
        let (vm2, em2, fm2) = face_registered((vm, em, fm1), file, key, face_2d);
        (vm2, em2, face_3d_linked(fm2, entity_3d, key))
    }
}

impl FaceManager {
    /// Sets up the networked 3d face `entity_3d` of the triangle `key`, of
    /// the file `file`: the triangle leaves the queue of new faces; when it
    /// has no 2d face yet, `spawn_2d` makes one, which is recorded at the
    /// triangle's vertices and edges (see `register_new_face`); then the 3d
    /// face is linked to the triangle. Returns the triangle's 2d face.
    pub fn set_up_face<F: FnOnce() -> u64>(
        &mut self,
        vertex_manager: &mut VertexManager,
        edge_manager: &mut EdgeManager,
        file: u64,
        key: &FaceKey,
        entity_3d: u64,
        spawn_2d: F,
    ) -> (face_2d: u64)
        requires
            old(self).wf(),
            old(vertex_manager).wf(),
            old(edge_manager).wf(),
            !old(self)@.has_2d_face(*key) ==> {
                &&& shares_one_edge(old(vertex_manager)@, old(edge_manager)@, key.vertex_3d_a, key.vertex_3d_b)
                &&& shares_one_edge(old(vertex_manager)@, old(edge_manager)@, key.vertex_3d_b, key.vertex_3d_c)
                &&& shares_one_edge(old(vertex_manager)@, old(edge_manager)@, key.vertex_3d_c, key.vertex_3d_a)
                &&& call_requires(spawn_2d, ())
            },
        ensures
            final(self).wf(),
            final(vertex_manager).wf(),
            final(edge_manager).wf(),
            old(self)@.has_2d_face(*key) ==> face_2d == old(self)@.data(*key).entity_2d,
            !old(self)@.has_2d_face(*key) ==> call_ensures(spawn_2d, (), face_2d),
            (final(vertex_manager)@, final(edge_manager)@, final(self)@) == face_set_up(
                (old(vertex_manager)@, old(edge_manager)@, old(self)@),
                file,
                *key,
                entity_3d,
                face_2d,
            ),
    {
        let ghost fm0 = self@;
        self.remove_new_face_key(key);
        proof {
            let k = *key;
            let keep = |e: (FaceKey, u64)| e.0 != *key;
            lemma_filter_is_queue_without(fm0.new_face_keys, k, keep);
            assert(self@ == dequeued(fm0, *key));
        }
        let face_2d = if self.has_2d_face(key) {
            self.face_2d_entity_from_face_key(key).unwrap()
        } else {
            let face_2d = spawn_2d();
            self.register_new_face(vertex_manager, edge_manager, file, key, face_2d);
            face_2d
        };
        self.register_3d_face(entity_3d, key);
        face_2d
    }
}

} // verus!
