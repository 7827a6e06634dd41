use vstd::prelude::*;
use crate::canvas::Canvas;
use crate::input::{InputManager, InputManagerView};
use crate::shape_action::ShapeAction;
use crate::shape_auth::shape_3d_of;
use crate::shape_cleanup::{edge_cleaned_up, hover_after, removable_face};
use crate::shape_data::{CanvasShape, FaceKey};
use crate::shape_graph::{EdgeManager, EdgeManagerView, FaceManager, FaceManagerView, VertexManager, VertexManagerView};

verus! {

/// The vertices of a triangle other than the two ends of an edge, in the
/// triangle's order.
pub open spec fn other_vertices(k: FaceKey, start: u64, end: u64) -> Seq<u64> {
    let pick = |v: u64| if v != start && v != end { seq![v] } else { Seq::<u64>::empty() };
    pick(k.vertex_3d_a) + pick(k.vertex_3d_b) + pick(k.vertex_3d_c)
}

/// What deleting an edge remembers of a triangle on it, to rebuild the face:
/// the 2d entity of its third vertex, its 2d face, and whether it had a 3d
/// face.
pub open spec fn deleted_face_info(vm: VertexManagerView, fm: FaceManagerView, k: FaceKey, start: u64, end: u64) -> (
    u64,
    u64,
    bool,
) {
    (vm.vertices[other_vertices(k, start, end)[0]].entity_2d, fm.data(k).entity_2d, fm.data(k).entity_3d is Some)
}

/// A triangle on the deleted edge can be remembered: exactly one of its
/// vertices is not an end of the edge, that vertex is registered, and the
/// triangle has its 2d face.
pub open spec fn rememberable(vm: VertexManagerView, fm: FaceManagerView, k: FaceKey, start: u64, end: u64) -> bool {
    &&& other_vertices(k, start, end).len() == 1
    &&& vm.vertices.contains_key(other_vertices(k, start, end)[0])
    &&& fm.has_2d_face(k)
}

/// `action` undoes deleting the 2d edge `edge_2d`, whose 3d edge runs from
/// `start_3d` to `end_3d`: it re-creates the edge between the same 2d
/// vertices and selects it, with the faces the edge closed (their third
/// vertex, their 2d face and whether they had a 3d face), in the order the
/// edge lists its faces.
pub open spec fn undoes_edge_deletion<V, P, R>(
    vm: VertexManagerView,
    em: EdgeManagerView,
    fm: FaceManagerView,
    edge_2d: u64,
    start_3d: u64,
    end_3d: u64,
    action: ShapeAction<V, P, R>,
) -> bool {
    let faces = em.edges[em.edges_2d[edge_2d]].faces;
    match action {
        ShapeAction::CreateEdge(a, b, select, infos, old_edge) => {
            &&& a == vm.vertices[start_3d].entity_2d
            &&& b == vm.vertices[end_3d].entity_2d
            &&& select == (edge_2d, CanvasShape::Edge)
            &&& old_edge == Some(edge_2d)
            &&& (infos is None <==> faces.is_empty())
            &&& infos matches Some(v) ==> exists|ks: Seq<FaceKey>| {
                &&& ks.to_set() == faces
                &&& ks.no_duplicates()
                &&& ks.len() == v@.len()
                &&& forall|i: int| 0 <= i < ks.len() ==> v@[i] == #[trigger] deleted_face_info(vm, fm, ks[i], start_3d, end_3d)
            }
        },
        _ => false,
    }
}

fn other_vertices_of(k: &FaceKey, start: u64, end: u64) -> (r: Vec<u64>)
    ensures
        r@ == other_vertices(*k, start, end),
{
    let mut r: Vec<u64> = Vec::new();
    if k.vertex_3d_a != start && k.vertex_3d_a != end {
        r.push(k.vertex_3d_a);
    }
    if k.vertex_3d_b != start && k.vertex_3d_b != end {
        r.push(k.vertex_3d_b);
    }
    if k.vertex_3d_c != start && k.vertex_3d_c != end {
        r.push(k.vertex_3d_c);
    }
    assert(r@ =~= other_vertices(*k, start, end));
    r
}

/// The action that undoes deleting the 2d edge `edge_2d`, whose 3d edge
/// runs from `start_3d` to `end_3d`: re-creating the edge between the same 2d
/// vertices, selecting it, with the faces it closed (their third vertex,
/// their 2d face and whether they had a 3d face), in the order the edge
/// lists its faces.
pub fn delete_edge_undo<V, P, R>(
    vertex_manager: &VertexManager,
    edge_manager: &EdgeManager,
    face_manager: &FaceManager,
    edge_2d: u64,
    start_3d: u64,
    end_3d: u64,
) -> (r: ShapeAction<V, P, R>)
    requires
        edge_manager.wf(),
        face_manager.wf(),
        edge_manager@.edges_2d.contains_key(edge_2d),
        edge_manager@.edges.contains_key(edge_manager@.edges_2d[edge_2d]),
        edge_manager@.edges[edge_manager@.edges_2d[edge_2d]].vertex_a == start_3d,
        edge_manager@.edges[edge_manager@.edges_2d[edge_2d]].vertex_b == end_3d,
        vertex_manager@.vertices.contains_key(start_3d),
        vertex_manager@.vertices.contains_key(end_3d),
        forall|k: FaceKey| #[trigger] edge_manager@.edges[edge_manager@.edges_2d[edge_2d]].faces.contains(k)
            ==> rememberable(vertex_manager@, face_manager@, k, start_3d, end_3d),
    ensures
        undoes_edge_deletion(vertex_manager@, edge_manager@, face_manager@, edge_2d, start_3d, end_3d, r),
{
    let edge_3d = edge_manager.edge_entity_2d_to_3d(edge_2d).unwrap();
    let start_2d = vertex_manager.vertex_entity_3d_to_2d(start_3d).unwrap();
    let end_2d = vertex_manager.vertex_entity_3d_to_2d(end_3d).unwrap();
    let keys = edge_manager.edge_connected_faces(edge_3d).unwrap();
    let ghost faces = edge_manager@.edges[edge_3d].faces;
    let mut infos: Vec<(u64, u64, bool)> = Vec::new();
    let mut i: usize = 0;
    while i < keys.len()
        invariant
            i <= keys@.len(),
            keys@.to_set() == faces,
            infos@.len() == i,
            faces == edge_manager@.edges[edge_3d].faces,
            forall|k: FaceKey| #[trigger] faces.contains(k) ==> rememberable(vertex_manager@, face_manager@, k, start_3d, end_3d),
            face_manager.wf(),
            forall|j: int| 0 <= j < i ==> infos@[j] == #[trigger] deleted_face_info(vertex_manager@, face_manager@, keys@[j], start_3d, end_3d),
        decreases keys@.len() - i,
    {
        let k = keys[i];
        proof {
            assert(keys@.contains(k));
            assert(faces.contains(k));
        }
        let others = other_vertices_of(&k, start_3d, end_3d);
        let third_2d = vertex_manager.vertex_entity_3d_to_2d(others[0]).unwrap();
        let face_2d = face_manager.face_2d_entity_from_face_key(&k).unwrap();
        let has_3d = face_manager.face_3d_entity_from_face_key(&k).is_some();
        infos.push((third_2d, face_2d, has_3d));
        i = i + 1;
    }
    let infos_opt = if infos.len() > 0 {
        proof {
            assert(faces.contains(keys@[0]));
        }
        Some(infos)
    } else {
        proof {
            assert(keys@ =~= Seq::<FaceKey>::empty());
            assert(faces =~= Set::<FaceKey>::empty());
        }
        None
    };
    ShapeAction::CreateEdge(start_2d, end_2d, (edge_2d, CanvasShape::Edge), infos_opt, Some(edge_2d))
}

fn find_shape_3d(
    vertex_manager: &VertexManager,
    edge_manager: &EdgeManager,
    face_manager: &FaceManager,
    shape: (u64, CanvasShape),
) -> (r: Option<u64>)
    requires
        face_manager.wf(),
    ensures
        r == shape_3d_of(vertex_manager@, edge_manager@, face_manager@, shape),
{
    let (e, kind) = shape;
    match kind {
        CanvasShape::RootVertex | CanvasShape::Vertex => vertex_manager.vertex_entity_2d_to_3d(e),
        CanvasShape::Edge => edge_manager.edge_entity_2d_to_3d(e),
        CanvasShape::Face => face_manager.face_entity_2d_to_3d(e),
    }
}

/// The 3d vertices that the 3d edge of the 2d edge `edge_2d` runs between.
pub open spec fn edge_ends(em: EdgeManagerView, edge_2d: u64) -> (u64, u64) {
    let d = em.edges[em.edges_2d[edge_2d]];
    (d.vertex_a, d.vertex_b)
}

/// Deletes the 2d edge `edge_2d` and every face on it (each must be rememberable and removable),
/// then clears the selection and selects `select` if given. Returns the
/// action that undoes the deletion, the 3d edge and the 2d faces to despawn,
/// and the 3d entity of the newly selected shape, whose authority is to be
/// requested.
pub fn delete_edge<V, P, R>(
    canvas: &mut Canvas,
    input_manager: &mut InputManager,
    vertex_manager: &mut VertexManager,
    edge_manager: &mut EdgeManager,
    face_manager: &mut FaceManager,
    edge_2d: u64,
    select: Option<(u64, CanvasShape)>,
) -> (r: (ShapeAction<V, P, R>, u64, Vec<u64>, Option<u64>))
    requires
        old(vertex_manager).wf(),
        old(edge_manager).wf(),
        old(face_manager).wf(),
        old(edge_manager)@.edges_2d.contains_key(edge_2d),
        old(edge_manager)@.edges.contains_key(old(edge_manager)@.edges_2d[edge_2d]),
        old(vertex_manager)@.vertices.contains_key(edge_ends(old(edge_manager)@, edge_2d).0),
        old(vertex_manager)@.vertices.contains_key(edge_ends(old(edge_manager)@, edge_2d).1),
        forall|k: FaceKey| #[trigger] old(edge_manager)@.edges[old(edge_manager)@.edges_2d[edge_2d]].faces.contains(k)
            ==> rememberable(old(vertex_manager)@, old(face_manager)@, k, edge_ends(old(edge_manager)@, edge_2d).0, edge_ends(old(edge_manager)@, edge_2d).1)
            && removable_face(old(edge_manager)@, old(face_manager)@, k),
    ensures
        final(vertex_manager).wf(),
        final(edge_manager).wf(),
        final(face_manager).wf(),
        undoes_edge_deletion(
            old(vertex_manager)@,
            old(edge_manager)@,
            old(face_manager)@,
            edge_2d,
            edge_ends(old(edge_manager)@, edge_2d).0,
            edge_ends(old(edge_manager)@, edge_2d).1,
            r.0,
        ),
        r.1 == old(edge_manager)@.edges_2d[edge_2d],
        edge_cleaned_up(
            (old(vertex_manager)@, old(edge_manager)@, old(face_manager)@),
            r.1,
            (old(edge_manager)@.edges[r.1].entity_2d, r.2@),
            (final(vertex_manager)@, final(edge_manager)@, final(face_manager)@),
        ),
        final(input_manager)@ == (InputManagerView {
            selected_shape: select,
            hovered_entity: hover_after(old(input_manager)@.hovered_entity, r.2@, Some(old(edge_manager)@.edges[r.1].entity_2d)),
            ..old(input_manager)@
        }),
        *final(canvas) == (Canvas { resync_shapes: 2, ..*old(canvas) }),
        r.3 == match select {
            Some(shape) => shape_3d_of(final(vertex_manager)@, final(edge_manager)@, final(face_manager)@, shape),
            None => None,
        },
{
    let edge_3d = edge_manager.edge_entity_2d_to_3d(edge_2d).unwrap();
    let (start_3d, end_3d) = edge_manager.edge_get_endpoints(edge_3d);
    let undo = delete_edge_undo(vertex_manager, edge_manager, face_manager, edge_2d, start_3d, end_3d);
    let (_, faces) = edge_manager.cleanup_deleted_edge(canvas, input_manager, vertex_manager, face_manager, edge_3d);
    input_manager.deselect_shape(canvas);
    let mut request: Option<u64> = None;
    if let Some((e, shape)) = select {
        input_manager.select_shape(canvas, e, shape);
        request = find_shape_3d(vertex_manager, edge_manager, face_manager, (e, shape));
    }
    (undo, edge_3d, faces, request)
}

} // verus!
