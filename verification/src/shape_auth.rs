use vstd::prelude::*;
use std::collections::HashMap;
use crate::action_stack::{ActionStack, ActionStackView};
use crate::auth::AuthStatus;
use crate::shape_action::{ShapeAction, ShapeActionView};
use crate::shape_data::CanvasShape;
use crate::shape_graph::{EdgeManager, EdgeManagerView, FaceManager, FaceManagerView, VertexManager, VertexManagerView};

verus! {

broadcast use vstd::std_specs::hash::group_hash_axioms;

/// The networked (3d) entity of a 2d shape, if the registries know it.
pub open spec fn shape_3d_of(
    vm: VertexManagerView,
    em: EdgeManagerView,
    fm: FaceManagerView,
    shape: (u64, CanvasShape),
) -> Option<u64> {
    let (e, kind) = shape;
    match kind {
        CanvasShape::RootVertex | CanvasShape::Vertex => if vm.vertices_2d.contains_key(e) {
            Some(vm.vertices_2d[e])
        } else {
            None
        },
        CanvasShape::Edge => if em.edges_2d.contains_key(e) {
            Some(em.edges_2d[e])
        } else {
            None
        },
        CanvasShape::Face => if fm.faces_2d.contains_key(e) && fm.has_2d_face(fm.faces_2d[e]) {
            fm.data(fm.faces_2d[e]).entity_3d
        } else {
            None
        },
    }
}

/// The networked entity of a 2d shape, which the registries must know.
pub fn shape_3d_entity(
    vertex_manager: &VertexManager,
    edge_manager: &EdgeManager,
    face_manager: &FaceManager,
    shape: (u64, CanvasShape),
) -> (r: u64)
    requires
        face_manager.wf(),
        shape_3d_of(vertex_manager@, edge_manager@, face_manager@, shape) is Some,
    ensures
        Some(r) == shape_3d_of(vertex_manager@, edge_manager@, face_manager@, shape),
{
    let (e, kind) = shape;
    match kind {
        CanvasShape::RootVertex | CanvasShape::Vertex => vertex_manager.vertex_entity_2d_to_3d(e).unwrap(),
        CanvasShape::Edge => edge_manager.edge_entity_2d_to_3d(e).unwrap(),
        CanvasShape::Face => face_manager.face_entity_2d_to_3d(e).unwrap(),
    }
}

/// The entities whose authority decides whether an undo or redo action may
/// be used: `None` where it may always be used; otherwise it may be used
/// when every listed entity is free (see `should_be_enabled`).
pub open spec fn auth_entities_of<V, P, R>(
    vm: VertexManagerView,
    em: EdgeManagerView,
    fm: FaceManagerView,
    action: ShapeActionView<V, P, R>,
) -> Option<Seq<u64>> {
    match action {
        ShapeActionView::SelectShape(Some(shape)) => Some(seq![shape_3d_of(vm, em, fm, shape)->0]),
        ShapeActionView::SelectShape(None) => Some(Seq::empty()),
        _ => None,
    }
}

impl<V, P, R> ShapeAction<V, P, R> {
    /// The entities whose authority decides whether this action may be used
    /// from the top of the undo or redo stack (see `auth_entities_of`); the
    /// shape it selects must be known.
    pub fn auth_entities(
        &self,
        vertex_manager: &VertexManager,
        edge_manager: &EdgeManager,
        face_manager: &FaceManager,
    ) -> (r: Option<Vec<u64>>)
        requires
            face_manager.wf(),
            self@ matches ShapeActionView::SelectShape(Some(shape))
                ==> shape_3d_of(vertex_manager@, edge_manager@, face_manager@, shape) is Some,
        ensures
            match r {
                Some(v) => auth_entities_of(vertex_manager@, edge_manager@, face_manager@, self@) == Some(v@),
                None => auth_entities_of(vertex_manager@, edge_manager@, face_manager@, self@) is None,
            },
    {
        match self.authority_target() {
            Some(shape) => {
                let e = shape_3d_entity(vertex_manager, edge_manager, face_manager, shape);
                let v = vec![e];
                assert(v@ =~= seq![e]);
                Some(v)
            },
            None => match self {
                ShapeAction::SelectShape(_) => {
                    let v: Vec<u64> = Vec::new();
                    assert(v@ =~= Seq::<u64>::empty());
                    Some(v)
                },
                _ => None,
            },
        }
    }
}

/// Whether `action`, on top of an undo or redo stack, may be used, given the
/// authority statuses that the network reports (an entity it reports nothing
/// for is not free): an action that depends on no entity's authority always
/// may; a selection may when every entity it depends on is available.
pub open spec fn shape_top_enabled<V, P, R>(
    vm: VertexManagerView,
    em: EdgeManagerView,
    fm: FaceManagerView,
    statuses: Map<u64, AuthStatus>,
    action: Option<ShapeActionView<V, P, R>>,
) -> bool {
    match action {
        Some(a) => match auth_entities_of(vm, em, fm, a) {
            Some(es) => forall|i: int| 0 <= i < es.len() ==> #[trigger] statuses.contains_key(es[i]) && statuses[es[i]] == AuthStatus::Available,
            None => true,
        },
        None => true,
    }
}

/// The shape an action on top of a stack selects is known to the registries.
pub open spec fn top_resolvable<V, P, R>(
    vm: VertexManagerView,
    em: EdgeManagerView,
    fm: FaceManagerView,
    action: ShapeActionView<V, P, R>,
) -> bool {
    action matches ShapeActionView::SelectShape(Some(shape)) ==> shape_3d_of(vm, em, fm, shape) is Some
}

fn all_available(statuses: &HashMap<u64, AuthStatus>, entities: &Vec<u64>) -> (r: bool)
    ensures
        r == forall|i: int| 0 <= i < entities@.len() ==> #[trigger] statuses@.contains_key(entities@[i])
            && statuses@[entities@[i]] == AuthStatus::Available,
{
    let mut i: usize = 0;
    while i < entities.len()
        invariant
            i <= entities@.len(),
            forall|j: int| 0 <= j < i ==> #[trigger] statuses@.contains_key(entities@[j])
                && statuses@[entities@[j]] == AuthStatus::Available,
        decreases entities@.len() - i,
    {
        let e = entities[i];
        let free = match statuses.get(&e) {
            Some(status) => status.is_available(),
            None => false,
        };
        if !free {
            assert(!(statuses@.contains_key(entities@[i as int]) && statuses@[entities@[i as int]] == AuthStatus::Available));
            return false;
        }
        assert forall|j: int| 0 <= j < i + 1 implies #[trigger] statuses@.contains_key(entities@[j])
            && statuses@[entities@[j]] == AuthStatus::Available by {
            if j == i {
                assert(statuses@.contains_key(entities@[i as int]) && statuses@[entities@[i as int]] == AuthStatus::Available);
            } else {
                assert(0 <= j < i);
                assert(statuses@.contains_key(entities@[j]));
                assert(statuses@[entities@[j]] == AuthStatus::Available);
            }
        }
        i = i + 1;
    }
    true
}

impl<V, P, R> ShapeAction<V, P, R> {
    /// Whether `last_action`, on top of an undo or redo stack, may be used
    /// (see `shape_top_enabled`); the shape it selects must be known.
    pub fn enable_top_impl(
        vertex_manager: &VertexManager,
        edge_manager: &EdgeManager,
        face_manager: &FaceManager,
        statuses: &HashMap<u64, AuthStatus>,
        last_action: Option<&ShapeAction<V, P, R>>,
    ) -> (enabled: bool)
        requires
            face_manager.wf(),
            last_action matches Some(a) ==> top_resolvable(vertex_manager@, edge_manager@, face_manager@, a@),
        ensures
            enabled == shape_top_enabled(
                vertex_manager@,
                edge_manager@,
                face_manager@,
                statuses@,
                match last_action {
                    Some(a) => Some(a@),
                    None => None,
                },
            ),
    {
        match last_action {
            None => true,
            Some(action) => match action.auth_entities(vertex_manager, edge_manager, face_manager) {
                None => true,
                Some(entities) => {
                    all_available(statuses, &entities)
                },
            },
        }
    }
}

impl<V, P, R> ActionStack<ShapeAction<V, P, R>> {
    /// Decides again whether the top undo and redo actions may be used, from
    /// the authority of the entities they depend on (see `shape_top_enabled`);
    /// the shapes they select must be known.
    pub fn enable_top(
        &mut self,
        vertex_manager: &VertexManager,
        edge_manager: &EdgeManager,
        face_manager: &FaceManager,
        statuses: &HashMap<u64, AuthStatus>,
    )
        requires
            face_manager.wf(),
            old(self)@.undo.len() > 0 ==> top_resolvable(vertex_manager@, edge_manager@, face_manager@, old(self)@.undo.last()@),
            old(self)@.redo.len() > 0 ==> top_resolvable(vertex_manager@, edge_manager@, face_manager@, old(self)@.redo.last()@),
        ensures
            final(self)@ == (ActionStackView {
                undo_enabled: shape_top_enabled(
                    vertex_manager@,
                    edge_manager@,
                    face_manager@,
                    statuses@,
                    if old(self)@.undo.len() > 0 { Some(old(self)@.undo.last()@) } else { None },
                ),
                redo_enabled: shape_top_enabled(
                    vertex_manager@,
                    edge_manager@,
                    face_manager@,
                    statuses@,
                    if old(self)@.redo.len() > 0 { Some(old(self)@.redo.last()@) } else { None },
                ),
                ..old(self)@
            }),
    {
        let undo_enabled = ShapeAction::enable_top_impl(vertex_manager, edge_manager, face_manager, statuses, self.undo_top());
        let redo_enabled = ShapeAction::enable_top_impl(vertex_manager, edge_manager, face_manager, statuses, self.redo_top());
        self.set_top_enabled(undo_enabled, redo_enabled);
    }
}

} // verus!
