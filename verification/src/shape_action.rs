use vstd::prelude::*;

use crate::action_stack::{Action, ActionStack, ActionStackView};
use crate::shape_data::CanvasShape;

verus! {

/// `e`, with `old_entity` replaced by `new_entity`.
pub open spec fn migrated(e: u64, old_entity: u64, new_entity: u64) -> u64 {
    if e == old_entity {
        new_entity
    } else {
        e
    }
}

fn migrate(e: &mut u64, old_entity: u64, new_entity: u64)
    ensures
        *final(e) == migrated(*old(e), old_entity, new_entity),
{
    if *e == old_entity {
        *e = new_entity;
    }
}

/// An undoable edit of a skeleton or mesh file. Entities are given by their
/// bit representation. `V` is the vertex-type payload of a vertex creation,
/// `P` a 3d position and `R` an edge angle.
pub enum ShapeAction<V, P, R> {
    /// The 2d shape to select (or `None` to deselect).
    SelectShape(Option<(u64, CanvasShape)>),
    /// Vertex payload, position, and the older 2d and 3d vertex entities the
    /// vertex was associated with.
    CreateVertex(V, P, Option<(u64, u64)>),
    /// 2d vertex entity, and the 2d shape to select after the delete.
    DeleteVertex(u64, Option<(u64, CanvasShape)>),
    /// 2d vertex entity, old position, new position.
    MoveVertex(u64, P, P),
    /// 2d start vertex, 2d end vertex, 2d shape to select, the faces to make
    /// (other 2d vertex, older 2d face entity, whether it had a 3d face), and
    /// the older 2d edge entity.
    CreateEdge(u64, u64, (u64, CanvasShape), Option<Vec<(u64, u64, bool)>>, Option<u64>),
    /// 2d edge entity, and the 2d shape to select after the delete.
    DeleteEdge(u64, Option<(u64, CanvasShape)>),
    /// 2d edge entity, old angle, new angle.
    RotateEdge(u64, R, R),
    /// 2d face entity.
    DeleteFace(u64),
}

/// The faces-to-make list of an edge creation, with `old` replaced by `new` in
/// the first (vertex) or second (face) place of each entry.
pub open spec fn migrated_faces(faces: Seq<(u64, u64, bool)>, old_entity: u64, new_entity: u64, vertex_place: bool) -> Seq<(u64, u64, bool)> {
    faces.map_values(|f: (u64, u64, bool)|
        if vertex_place {
            (migrated(f.0, old_entity, new_entity), f.1, f.2)
        } else {
            (f.0, migrated(f.1, old_entity, new_entity), f.2)
        }
    )
}

fn migrate_faces(faces: &mut Vec<(u64, u64, bool)>, old_entity: u64, new_entity: u64, vertex_place: bool)
    ensures
        final(faces)@ == migrated_faces(old(faces)@, old_entity, new_entity, vertex_place),
{
    let ghost start = faces@;
    let mut i: usize = 0;
    while i < faces.len()
        invariant
            i <= faces@.len(),
            faces@.len() == start.len(),
            forall|j: int| 0 <= j < i ==> faces@[j] == migrated_faces(start, old_entity, new_entity, vertex_place)[j],
            forall|j: int| i <= j < faces@.len() ==> faces@[j] == start[j],
        decreases faces@.len() - i,
    {
        let (a, b, c) = faces[i];
        let entry = if vertex_place {
            (if a == old_entity { new_entity } else { a }, b, c)
        } else {
            (a, if b == old_entity { new_entity } else { b }, c)
        };
        faces.set(i, entry);
        i = i + 1;
    }
    assert(faces@ =~= migrated_faces(start, old_entity, new_entity, vertex_place));
}

/// The abstract value of a shape action: the faces-to-make list is a sequence.
pub enum ShapeActionView<V, P, R> {
    SelectShape(Option<(u64, CanvasShape)>),
    CreateVertex(V, P, Option<(u64, u64)>),
    DeleteVertex(u64, Option<(u64, CanvasShape)>),
    MoveVertex(u64, P, P),
    CreateEdge(u64, u64, (u64, CanvasShape), Option<Seq<(u64, u64, bool)>>, Option<u64>),
    DeleteEdge(u64, Option<(u64, CanvasShape)>),
    RotateEdge(u64, R, R),
    DeleteFace(u64),
}

impl<V, P, R> View for ShapeAction<V, P, R> {
    type V = ShapeActionView<V, P, R>;

    open spec fn view(&self) -> ShapeActionView<V, P, R> {
        match *self {
            ShapeAction::SelectShape(s) => ShapeActionView::SelectShape(s),
            ShapeAction::CreateVertex(v, p, o) => ShapeActionView::CreateVertex(v, p, o),
            ShapeAction::DeleteVertex(e, s) => ShapeActionView::DeleteVertex(e, s),
            ShapeAction::MoveVertex(e, p0, p1) => ShapeActionView::MoveVertex(e, p0, p1),
            ShapeAction::CreateEdge(a, b, s, f, o) => ShapeActionView::CreateEdge(
                a,
                b,
                s,
                match f {
                    Some(list) => Some(list@),
                    None => None,
                },
                o,
            ),
            ShapeAction::DeleteEdge(e, s) => ShapeActionView::DeleteEdge(e, s),
            ShapeAction::RotateEdge(e, r0, r1) => ShapeActionView::RotateEdge(e, r0, r1),
            ShapeAction::DeleteFace(f) => ShapeActionView::DeleteFace(f),
        }
    }
}

/// A selection target with `old` replaced by `new` when its shape is one of
/// the kinds the migration is about.
pub open spec fn migrated_selection(sel: (u64, CanvasShape), old_entity: u64, new_entity: u64, applies: bool) -> (u64, CanvasShape) {
    if applies {
        (migrated(sel.0, old_entity, new_entity), sel.1)
    } else {
        sel
    }
}

impl<V, P, R> ShapeActionView<V, P, R> {
    /// The action after vertex entities were re-created: the 2d vertex
    /// `old_2d` became `new_2d` and the 3d vertex `old_3d` became `new_3d`.
    /// The vertex payload of a vertex creation is not covered here: it is
    /// re-targeted by its own migration (see `migrated_as`).
    pub open spec fn vertex_migrated(self, old_2d: u64, new_2d: u64, old_3d: u64, new_3d: u64) -> Self {
        match self {
            ShapeActionView::SelectShape(Some(sel)) => ShapeActionView::SelectShape(
                Some(migrated_selection(sel, old_2d, new_2d, sel.1 == CanvasShape::Vertex || sel.1 == CanvasShape::RootVertex)),
            ),
            ShapeActionView::CreateVertex(v, p, Some((e2, e3))) =>
                ShapeActionView::CreateVertex(v, p, Some((migrated(e2, old_2d, new_2d), migrated(e3, old_3d, new_3d)))),
            ShapeActionView::DeleteVertex(e, sel) => ShapeActionView::DeleteVertex(
                migrated(e, old_2d, new_2d),
                match sel {
                    Some(s) => Some(migrated_selection(s, old_2d, new_2d, true)),
                    None => None,
                },
            ),
            ShapeActionView::MoveVertex(e, p0, p1) => ShapeActionView::MoveVertex(migrated(e, old_2d, new_2d), p0, p1),
            ShapeActionView::CreateEdge(a, b, sel, faces, old_edge) => ShapeActionView::CreateEdge(
                migrated(a, old_2d, new_2d),
                migrated(b, old_2d, new_2d),
                migrated_selection(sel, old_2d, new_2d, sel.1 == CanvasShape::Vertex),
                match faces {
                    Some(f) => Some(migrated_faces(f, old_2d, new_2d, true)),
                    None => None,
                },
                old_edge,
            ),
            ShapeActionView::DeleteEdge(edge, Some(sel)) =>
                ShapeActionView::DeleteEdge(edge, Some(migrated_selection(sel, old_2d, new_2d, true))),
            _ => self,
        }
    }

    /// The action after the 2d edge entity `old_2d` was re-created as `new_2d`.
    pub open spec fn edge_migrated(self, old_2d: u64, new_2d: u64) -> Self {
        match self {
            ShapeActionView::SelectShape(Some(sel)) => ShapeActionView::SelectShape(
                Some(migrated_selection(sel, old_2d, new_2d, sel.1 == CanvasShape::Edge)),
            ),
            ShapeActionView::CreateEdge(a, b, sel, faces, Some(edge)) => ShapeActionView::CreateEdge(
                a,
                b,
                migrated_selection(sel, old_2d, new_2d, sel.1 == CanvasShape::Edge),
                faces,
                Some(migrated(edge, old_2d, new_2d)),
            ),
            ShapeActionView::RotateEdge(e, r0, r1) => ShapeActionView::RotateEdge(migrated(e, old_2d, new_2d), r0, r1),
            ShapeActionView::DeleteEdge(e, sel) => ShapeActionView::DeleteEdge(migrated(e, old_2d, new_2d), sel),
            _ => self,
        }
    }

    /// The action after the 2d face entity `old_2d` was re-created as `new_2d`.
    pub open spec fn face_migrated(self, old_2d: u64, new_2d: u64) -> Self {
        match self {
            ShapeActionView::SelectShape(Some(sel)) => ShapeActionView::SelectShape(
                Some(migrated_selection(sel, old_2d, new_2d, sel.1 == CanvasShape::Face)),
            ),
            ShapeActionView::CreateEdge(a, b, sel, Some(f), old_edge) =>
                ShapeActionView::CreateEdge(a, b, sel, Some(migrated_faces(f, old_2d, new_2d, false)), old_edge),
            ShapeActionView::DeleteFace(f) => ShapeActionView::DeleteFace(migrated(f, old_2d, new_2d)),
            _ => self,
        }
    }
}

impl<V, P, R> ShapeActionView<V, P, R> {
    /// The vertex payload, if this is a vertex creation.
    pub open spec fn payload(self) -> Option<V> {
        match self {
            ShapeActionView::CreateVertex(v, _, _) => Some(v),
            _ => None,
        }
    }

    /// The action with the payload of a vertex creation replaced by `w`.
    pub open spec fn with_payload(self, w: V) -> Self {
        match self {
            ShapeActionView::CreateVertex(_, p, o) => ShapeActionView::CreateVertex(w, p, o),
            _ => self,
        }
    }
}

/// `b` is `a` re-targeted by `m`, where the payload `v` of a vertex creation
/// became a payload `w` with `payload_moved(v, w)`.
pub open spec fn migrated_as<V, P, R>(
    a: ShapeActionView<V, P, R>,
    b: ShapeActionView<V, P, R>,
    m: Migration,
    payload_moved: spec_fn(V, V) -> bool,
) -> bool {
    match a.payload() {
        Some(v) => {
            &&& b.payload() is Some
            &&& payload_moved(v, b.payload()->0)
            &&& b == m.apply(a).with_payload(b.payload()->0)
        },
        None => b == m.apply(a),
    }
}

/// What a payload migration `f` may give back for the payload `v`.
pub open spec fn payload_step<V, F: Fn(&V) -> V>(f: F) -> spec_fn(V, V) -> bool {
    |v: V, w: V| call_ensures(f, (&v,), w)
}

/// `f` accepts every payload.
pub open spec fn accepts_all<V, F: Fn(&V) -> V>(f: F) -> bool {
    forall|v: &V| #[trigger] call_requires(f, (v,))
}

impl<V, P, R> ShapeAction<V, P, R> {
    /// Re-targets every vertex entity of the action; the payload of a vertex
    /// creation goes through `payload`, its own vertex migration.
    pub fn migrate_vertex_entities<F: Fn(&V) -> V>(&mut self, old_2d: u64, new_2d: u64, old_3d: u64, new_3d: u64, payload: &F)
        requires
            accepts_all(*payload),
        ensures
            migrated_as(old(self)@, final(self)@, Migration::Vertex(old_2d, new_2d, old_3d, new_3d), payload_step(*payload)),
    {
        match self {
            ShapeAction::SelectShape(Some((e, shape))) => {
                if *shape == CanvasShape::Vertex || *shape == CanvasShape::RootVertex {
                    migrate(e, old_2d, new_2d);
                }
            },
            ShapeAction::CreateVertex(v, _, entity_opt) => {
                let w = payload(&*v);
                *v = w;
                if let Some((e2, e3)) = entity_opt {
                    migrate(e2, old_2d, new_2d);
                    migrate(e3, old_3d, new_3d);
                }
            },
            ShapeAction::DeleteVertex(e, sel) => {
                migrate(e, old_2d, new_2d);
                if let Some((s, _)) = sel {
                    migrate(s, old_2d, new_2d);
                }
            },
            ShapeAction::MoveVertex(e, _, _) => {
                migrate(e, old_2d, new_2d);
            },
            ShapeAction::CreateEdge(a, b, (s, shape), faces, _) => {
                migrate(a, old_2d, new_2d);
                migrate(b, old_2d, new_2d);
                if *shape == CanvasShape::Vertex {
                    migrate(s, old_2d, new_2d);
                }
                if let Some(list) = faces {
                    migrate_faces(list, old_2d, new_2d, true);
                }
            },
            ShapeAction::DeleteEdge(_, Some((s, _))) => {
                migrate(s, old_2d, new_2d);
            },
            _ => {},
        }
    }

    /// Re-targets the 2d edge entity `old_2d` to `new_2d`; the payload of a
    /// vertex creation goes through `payload`, its own edge migration.
    pub fn migrate_edge_entities<F: Fn(&V) -> V>(&mut self, old_2d: u64, new_2d: u64, payload: &F)
        requires
            accepts_all(*payload),
        ensures
            migrated_as(old(self)@, final(self)@, Migration::Edge(old_2d, new_2d), payload_step(*payload)),
    {
        match self {
            ShapeAction::CreateVertex(v, _, _) => {
                let w = payload(&*v);
                *v = w;
            },
            ShapeAction::SelectShape(Some((e, shape))) => {
                if *shape == CanvasShape::Edge {
                    migrate(e, old_2d, new_2d);
                }
            },
            ShapeAction::CreateEdge(_, _, (s, shape), _, Some(edge)) => {
                migrate(edge, old_2d, new_2d);
                if *shape == CanvasShape::Edge {
                    migrate(s, old_2d, new_2d);
                }
            },
            ShapeAction::RotateEdge(e, _, _) => {
                migrate(e, old_2d, new_2d);
            },
            ShapeAction::DeleteEdge(e, _) => {
                migrate(e, old_2d, new_2d);
            },
            _ => {},
        }
    }

    /// Re-targets the 2d face entity `old_2d` to `new_2d`; the payload of a
    /// vertex creation goes through `payload`, its own face migration.
    pub fn migrate_face_entities<F: Fn(&V) -> V>(&mut self, old_2d: u64, new_2d: u64, payload: &F)
        requires
            accepts_all(*payload),
        ensures
            migrated_as(old(self)@, final(self)@, Migration::Face(old_2d, new_2d), payload_step(*payload)),
    {
        match self {
            ShapeAction::CreateVertex(v, _, _) => {
                let w = payload(&*v);
                *v = w;
            },
            ShapeAction::SelectShape(Some((e, shape))) => {
                if *shape == CanvasShape::Face {
                    migrate(e, old_2d, new_2d);
                }
            },
            ShapeAction::CreateEdge(_, _, _, Some(list), _) => {
                migrate_faces(list, old_2d, new_2d, false);
            },
            ShapeAction::DeleteFace(f) => {
                migrate(f, old_2d, new_2d);
            },
            _ => {},
        }
    }
}

impl<V, P, R> Action for ShapeAction<V, P, R> {
    /// Selecting a 2d vertex depends on the authority of that vertex.
    open spec fn spec_watches_entity(&self, entity: u64) -> bool {
        match *self {
            ShapeAction::SelectShape(Some((e, shape))) => shape == CanvasShape::Vertex && e == entity,
            _ => false,
        }
    }

    fn watches_entity(&self, entity: u64) -> (r: bool) {
        match self {
            ShapeAction::SelectShape(Some((e, shape))) => *shape == CanvasShape::Vertex && *e == entity,
            _ => false,
        }
    }
}

impl<V, P, R> ShapeAction<V, P, R> {
    /// The 2d shape whose (3d) entity must be free of authority for this
    /// action to be undone or redone, if there is one.
    pub fn authority_target(&self) -> (r: Option<(u64, CanvasShape)>)
        ensures
            r == (match self@ {
                ShapeActionView::SelectShape(sel) => sel,
                _ => None,
            }),
    {
        match self {
            ShapeAction::SelectShape(sel) => *sel,
            _ => None,
        }
    }
}

/// `new` is `old` with every action re-targeted by `m`, payloads moving as
/// `payload_moved` allows.
pub open spec fn each_migrated<V, P, R>(
    old_actions: Seq<ShapeAction<V, P, R>>,
    new_actions: Seq<ShapeAction<V, P, R>>,
    m: Migration,
    payload_moved: spec_fn(V, V) -> bool,
) -> bool {
    &&& new_actions.len() == old_actions.len()
    &&& forall|i: int| 0 <= i < old_actions.len() ==> migrated_as(old_actions[i]@, (#[trigger] new_actions[i])@, m, payload_moved)
}

/// Which re-targeting to apply to a history.
pub enum Migration {
    /// 2d vertex (old, new) and 3d vertex (old, new).
    Vertex(u64, u64, u64, u64),
    /// 2d edge (old, new).
    Edge(u64, u64),
    /// 2d face (old, new).
    Face(u64, u64),
}

impl Migration {
    pub open spec fn apply<V, P, R>(self, a: ShapeActionView<V, P, R>) -> ShapeActionView<V, P, R> {
        match self {
            Migration::Vertex(o2, n2, o3, n3) => a.vertex_migrated(o2, n2, o3, n3),
            Migration::Edge(o, n) => a.edge_migrated(o, n),
            Migration::Face(o, n) => a.face_migrated(o, n),
        }
    }
}

impl Migration {
    /// The migration renames every entity to itself.
    pub open spec fn is_identity(self) -> bool {
        match self {
            Migration::Vertex(o2, n2, o3, n3) => o2 == n2 && o3 == n3,
            Migration::Edge(o, n) => o == n,
            Migration::Face(o, n) => o == n,
        }
    }
}

/// An entity slot is either left as it was, or it held `old_entity` and now
/// holds `new_entity`.
pub proof fn lemma_migrated_slot(e: u64, old_entity: u64, new_entity: u64)
    ensures
        migrated(e, old_entity, new_entity) == e || (e == old_entity && migrated(e, old_entity, new_entity) == new_entity),
        migrated(migrated(e, old_entity, new_entity), old_entity, new_entity) == migrated(e, old_entity, new_entity),
        old_entity == new_entity ==> migrated(e, old_entity, new_entity) == e,
{
}

proof fn lemma_faces_migrated_twice(faces: Seq<(u64, u64, bool)>, old_entity: u64, new_entity: u64, vertex_place: bool)
    ensures
        migrated_faces(migrated_faces(faces, old_entity, new_entity, vertex_place), old_entity, new_entity, vertex_place)
            == migrated_faces(faces, old_entity, new_entity, vertex_place),
        old_entity == new_entity ==> migrated_faces(faces, old_entity, new_entity, vertex_place) == faces,
{
    assert(migrated_faces(migrated_faces(faces, old_entity, new_entity, vertex_place), old_entity, new_entity, vertex_place)
        =~= migrated_faces(faces, old_entity, new_entity, vertex_place));
    if old_entity == new_entity {
        assert(migrated_faces(faces, old_entity, new_entity, vertex_place) =~= faces);
    }
}

/// Re-targeting an action a second time with the same entities changes
/// nothing more: every migration is idempotent.
pub proof fn lemma_migration_idempotent<V, P, R>(a: ShapeActionView<V, P, R>, m: Migration)
    ensures
        m.apply(m.apply(a)) == m.apply(a),
{
    match a {
        ShapeActionView::CreateEdge(_, _, _, Some(f), _) => {
            match m {
                Migration::Vertex(o2, n2, _, _) => lemma_faces_migrated_twice(f, o2, n2, true),
                Migration::Face(o, n) => lemma_faces_migrated_twice(f, o, n, false),
                _ => {},
            }
        },
        _ => {},
    }
}

/// A migration that renames every entity to itself leaves the action as it
/// was.
pub proof fn lemma_identity_migration_changes_nothing<V, P, R>(a: ShapeActionView<V, P, R>, m: Migration)
    requires
        m.is_identity(),
    ensures
        m.apply(a) == a,
{
    match a {
        ShapeActionView::CreateEdge(_, _, _, Some(f), _) => {
            match m {
                Migration::Vertex(o2, n2, _, _) => lemma_faces_migrated_twice(f, o2, n2, true),
                Migration::Face(o, n) => lemma_faces_migrated_twice(f, o, n, false),
                _ => {},
            }
        },
        _ => {},
    }
}

/// Migrating an action that is not a vertex creation twice in the same way:
/// the second migration leaves it unchanged.
pub proof fn lemma_second_migration_changes_nothing<V, P, R>(
    a: ShapeActionView<V, P, R>,
    b: ShapeActionView<V, P, R>,
    c: ShapeActionView<V, P, R>,
    m: Migration,
    first_moved: spec_fn(V, V) -> bool,
    second_moved: spec_fn(V, V) -> bool,
)
    requires
        a.payload() is None,
        migrated_as(a, b, m, first_moved),
        migrated_as(b, c, m, second_moved),
    ensures
        c == b,
{
    lemma_migration_idempotent(a, m);
}

/// Re-targets entities in every action of a history; `payload` is the
/// payload's own migration of the same kind as `migration`.
pub fn migrate_all<V, P, R, F: Fn(&V) -> V>(actions: &mut Vec<ShapeAction<V, P, R>>, migration: &Migration, payload: &F)
    requires
        accepts_all(*payload),
    ensures
        each_migrated(old(actions)@, final(actions)@, *migration, payload_step(*payload)),
{
    let ghost start = actions@;
    let mut i: usize = 0;
    while i < actions.len()
        invariant
            accepts_all(*payload),
            i <= actions@.len(),
            actions@.len() == start.len(),
            forall|j: int| 0 <= j < i ==> migrated_as(start[j]@, (#[trigger] actions@[j])@, *migration, payload_step(*payload)),
            forall|j: int| i <= j < actions@.len() ==> #[trigger] actions@[j] == start[j],
        decreases actions@.len() - i,
    {
        match migration {
            Migration::Vertex(o2, n2, o3, n3) => actions[i].migrate_vertex_entities(*o2, *n2, *o3, *n3, payload),
            Migration::Edge(o, n) => actions[i].migrate_edge_entities(*o, *n, payload),
            Migration::Face(o, n) => actions[i].migrate_face_entities(*o, *n, payload),
        }
        i = i + 1;
    }
}

} // verus!
