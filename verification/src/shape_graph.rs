use std::collections::HashMap;

use vstd::prelude::*;

use crate::edge_laws::{edges_consistent, lemma_register_edge_keeps_edges_consistent, lemma_register_vertex_keeps_edges_consistent};
use crate::face_map::FaceMap;
use crate::file_ext::FileExtension;
use crate::id_set::IdSet;
use crate::shape_data::{face_key_of, Edge3dData, Edge3dView, FaceData, FaceKey, Vertex3dData, Vertex3dView};
use crate::shape_cleanup::key_unregistered;

verus! {

broadcast use vstd::std_specs::hash::group_hash_axioms;

// ---------------------------------------------------------------- vertices

/// The abstract state of the vertex registry.
pub struct VertexManagerView {
    pub vertices: Map<u64, Vertex3dView>,
    pub vertices_2d: Map<u64, u64>,
}

/// The 3d vertices and their 2d counterparts, with the edges and faces that
/// touch each vertex.
pub struct VertexManager {
    vertices_3d: HashMap<u64, Vertex3dData>,
    vertices_2d: HashMap<u64, u64>,
}

impl View for VertexManager {
    type V = VertexManagerView;

    closed spec fn view(&self) -> VertexManagerView {
        VertexManagerView {
            vertices: self.vertices_3d@.map_values(|d: Vertex3dData| d@),
            vertices_2d: self.vertices_2d@,
        }
    }
}

impl VertexManagerView {
    pub open spec fn with_vertex(self, v: u64, d: Vertex3dView) -> Self {
        VertexManagerView { vertices: self.vertices.insert(v, d), ..self }
    }

    /// The vertex `v` with edge `e` added, when `v` is registered.
    pub open spec fn edge_added(self, v: u64, e: u64) -> Self {
        if self.vertices.contains_key(v) {
            self.with_vertex(v, Vertex3dView { edges: self.vertices[v].edges.insert(e), ..self.vertices[v] })
        } else {
            self
        }
    }

    pub open spec fn edge_removed(self, v: u64, e: u64) -> Self {
        if self.vertices.contains_key(v) {
            self.with_vertex(v, Vertex3dView { edges: self.vertices[v].edges.remove(e), ..self.vertices[v] })
        } else {
            self
        }
    }

    pub open spec fn face_added(self, v: u64, k: FaceKey) -> Self {
        if self.vertices.contains_key(v) {
            self.with_vertex(v, Vertex3dView { faces: self.vertices[v].faces.insert(k), ..self.vertices[v] })
        } else {
            self
        }
    }

    pub open spec fn face_removed(self, v: u64, k: FaceKey) -> Self {
        if self.vertices.contains_key(v) {
            self.with_vertex(v, Vertex3dView { faces: self.vertices[v].faces.remove(k), ..self.vertices[v] })
        } else {
            self
        }
    }

    /// The vertices joined to `v` by one of its edges.
    pub open spec fn connected(self, edges: Map<u64, Edge3dView>, v: u64) -> Set<u64> {
        Set::new(|w: u64| exists|e: u64| #[trigger] self.vertices[v].edges.contains(e) && other_endpoint(edges[e], v) == Some(w))
    }
}

/// The end of an edge that is not `v` (the first end if neither is).
pub open spec fn other_endpoint(edge: Edge3dView, v: u64) -> Option<u64> {
    if edge.vertex_a != v {
        Some(edge.vertex_a)
    } else if edge.vertex_b != v {
        Some(edge.vertex_b)
    } else {
        None
    }
}

impl VertexManager {
    pub closed spec fn wf(&self) -> bool {
        forall|v: u64| #[trigger] self.vertices_3d@.contains_key(v) ==> self.vertices_3d@[v].wf()
    }

    pub fn new() -> (m: Self)
        ensures
            m.wf(),
            m@.vertices == Map::<u64, Vertex3dView>::empty(),
            m@.vertices_2d == Map::<u64, u64>::empty(),
    {
        let m = VertexManager { vertices_3d: HashMap::new(), vertices_2d: HashMap::new() };
        assert(m@.vertices =~= Map::<u64, Vertex3dView>::empty());
        m
    }

    /// Registers a 3d vertex together with its 2d counterpart.
    pub fn register_3d_vertex(&mut self, entity_3d: u64, entity_2d: u64)
        requires
            old(self).wf(),
        ensures
            final(self).wf(),
            final(self)@ == (VertexManagerView {
                vertices: old(self)@.vertices.insert(entity_3d, Vertex3dView::fresh(entity_2d)),
                vertices_2d: old(self)@.vertices_2d.insert(entity_2d, entity_3d),
            }),
            forall|em: EdgeManagerView| #[trigger] edges_consistent(old(self)@, em) && !old(self)@.vertices.contains_key(entity_3d)
                ==> edges_consistent(final(self)@, em),
    {
        let ghost before = self@;
        self.vertices_3d.insert(entity_3d, Vertex3dData::new(entity_2d));
        self.vertices_2d.insert(entity_2d, entity_3d);
        assert(self@.vertices =~= before.vertices.insert(entity_3d, Vertex3dView::fresh(entity_2d)));
        assert forall|em: EdgeManagerView| #[trigger] edges_consistent(before, em) && !before.vertices.contains_key(entity_3d)
            implies edges_consistent(self@, em) by {
            lemma_register_vertex_keeps_edges_consistent(before, em, entity_3d, entity_2d);
        }
    }

    /// Forgets a 3d vertex and its 2d counterpart; returns the 2d entity.
    pub fn unregister_3d_vertex(&mut self, entity_3d: u64) -> (r: Option<u64>)
        requires
            old(self).wf(),
        ensures
            final(self).wf(),
            match r {
                Some(e2) => {
                    &&& old(self)@.vertices.contains_key(entity_3d)
                    &&& e2 == old(self)@.vertices[entity_3d].entity_2d
                    &&& final(self)@ == (VertexManagerView {
                        vertices: old(self)@.vertices.remove(entity_3d),
                        vertices_2d: old(self)@.vertices_2d.remove(e2),
                    })
                },
                None => !old(self)@.vertices.contains_key(entity_3d) && final(self)@ == old(self)@,
            },
    {
        let ghost before = self@;
        match self.vertices_3d.remove(&entity_3d) {
            Some(data) => {
                let e2 = data.entity_2d;
                self.vertices_2d.remove(&e2);
                assert(self@.vertices =~= before.vertices.remove(entity_3d));
                Some(e2)
            },
            None => {
                assert(self@.vertices =~= before.vertices);
                None
            },
        }
    }

    pub fn has_vertex_entity_3d(&self, entity_3d: u64) -> (r: bool)
        ensures
            r == self@.vertices.contains_key(entity_3d),
    {
        self.vertices_3d.contains_key(&entity_3d)
    }

    pub fn vertex_entity_3d_to_2d(&self, entity_3d: u64) -> (r: Option<u64>)
        ensures
            r == (if self@.vertices.contains_key(entity_3d) { Some(self@.vertices[entity_3d].entity_2d) } else { None }),
    {
        match self.vertices_3d.get(&entity_3d) {
            Some(d) => Some(d.entity_2d),
            None => None,
        }
    }

    pub fn vertex_entity_2d_to_3d(&self, entity_2d: u64) -> (r: Option<u64>)
        ensures
            r == (if self@.vertices_2d.contains_key(entity_2d) { Some(self@.vertices_2d[entity_2d]) } else { None }),
    {
        match self.vertices_2d.get(&entity_2d) {
            Some(e) => Some(*e),
            None => None,
        }
    }

    /// Records that edge `edge_3d` touches the registered vertex `vertex_3d`.
    pub fn vertex_add_edge(&mut self, vertex_3d: u64, edge_3d: u64)
        requires
            old(self).wf(),
            old(self)@.vertices.contains_key(vertex_3d),
        ensures
            final(self).wf(),
            final(self)@ == old(self)@.edge_added(vertex_3d, edge_3d),
    {
        let ghost before = self@;
        let mut d = self.vertices_3d.remove(&vertex_3d).unwrap();
        d.add_edge(edge_3d);
        self.vertices_3d.insert(vertex_3d, d);
        assert(self@.vertices =~= before.edge_added(vertex_3d, edge_3d).vertices);
    }

    /// Forgets that edge `edge_3d` touches `vertex_3d` (which may be gone).
    pub fn vertex_remove_edge(&mut self, vertex_3d: u64, edge_3d: u64)
        requires
            old(self).wf(),
        ensures
            final(self).wf(),
            final(self)@ == old(self)@.edge_removed(vertex_3d, edge_3d),
    {
        let ghost before = self@;
        match self.vertices_3d.remove(&vertex_3d) {
            Some(mut d) => {
                d.remove_edge(edge_3d);
                self.vertices_3d.insert(vertex_3d, d);
                assert(self@.vertices =~= before.edge_removed(vertex_3d, edge_3d).vertices);
            },
            None => {
                assert(self@.vertices =~= before.vertices);
            },
        }
    }

    /// Records that face `key` touches `vertex_3d` (which may be gone).
    pub fn vertex_add_face(&mut self, vertex_3d: u64, key: FaceKey)
        requires
            old(self).wf(),
        ensures
            final(self).wf(),
            final(self)@ == old(self)@.face_added(vertex_3d, key),
    {
        let ghost before = self@;
        match self.vertices_3d.remove(&vertex_3d) {
            Some(mut d) => {
                d.add_face(key);
                self.vertices_3d.insert(vertex_3d, d);
                assert(self@.vertices =~= before.face_added(vertex_3d, key).vertices);
            },
            None => {
                assert(self@.vertices =~= before.vertices);
            },
        }
    }

    /// Forgets that face `key` touches `vertex_3d` (which may be gone).
    pub fn vertex_remove_face(&mut self, vertex_3d: u64, key: &FaceKey)
        requires
            old(self).wf(),
        ensures
            final(self).wf(),
            final(self)@ == old(self)@.face_removed(vertex_3d, *key),
    {
        let ghost before = self@;
        match self.vertices_3d.remove(&vertex_3d) {
            Some(mut d) => {
                d.remove_face(key);
                self.vertices_3d.insert(vertex_3d, d);
                assert(self@.vertices =~= before.face_removed(vertex_3d, *key).vertices);
            },
            None => {
                assert(self@.vertices =~= before.vertices);
            },
        }
    }

    /// The edges touching a vertex, if it is registered.
    pub fn vertex_get_edges(&self, vertex_3d: u64) -> (r: Option<&IdSet>)
        ensures
            match r {
                Some(s) => self@.vertices.contains_key(vertex_3d) && s@ == self@.vertices[vertex_3d].edges,
                None => !self@.vertices.contains_key(vertex_3d),
            },
    {
        match self.vertices_3d.get(&vertex_3d) {
            Some(d) => Some(&d.edges_3d),
            None => None,
        }
    }
}

// ---------------------------------------------------------------- edges

/// The abstract state of the edge registry.
pub struct EdgeManagerView {
    pub resync: bool,
    pub edges: Map<u64, Edge3dView>,
    pub edges_2d: Map<u64, u64>,
    pub angle_visibility: bool,
}

/// The 3d edges and their 2d counterparts.
pub struct EdgeManager {
    resync: bool,
    edges_3d: HashMap<u64, Edge3dData>,
    edges_2d: HashMap<u64, u64>,
    edge_angle_visibility: bool,
}

impl View for EdgeManager {
    type V = EdgeManagerView;

    closed spec fn view(&self) -> EdgeManagerView {
        EdgeManagerView {
            resync: self.resync,
            edges: self.edges_3d@.map_values(|d: Edge3dData| d@),
            edges_2d: self.edges_2d@,
            angle_visibility: self.edge_angle_visibility,
        }
    }
}

impl EdgeManagerView {
    pub open spec fn with_edge(self, e: u64, d: Edge3dView) -> Self {
        EdgeManagerView { edges: self.edges.insert(e, d), ..self }
    }

    pub open spec fn face_added(self, e: u64, k: FaceKey) -> Self {
        self.with_edge(e, Edge3dView { faces: self.edges[e].faces.insert(k), ..self.edges[e] })
    }

    pub open spec fn face_removed(self, e: u64, k: FaceKey) -> Self {
        self.with_edge(e, Edge3dView { faces: self.edges[e].faces.remove(k), ..self.edges[e] })
    }

    /// All edges touching `v` are registered.
    pub open spec fn knows_edges_of(self, vm: VertexManagerView, v: u64) -> bool {
        forall|e: u64| #[trigger] vm.vertices[v].edges.contains(e) ==> self.edges.contains_key(e)
    }
}

/// Edge angles are shown in skeleton and animation files.
pub open spec fn angles_shown_for(file_type: FileExtension) -> bool {
    file_type == FileExtension::Skel || file_type == FileExtension::Anim
}

/// Edge angles belong to skeletons and their animations: they are shown in
/// skeleton and animation files, and in no other kind of file.
pub proof fn lemma_angles_shown_in_skeletons_and_animations(file_type: FileExtension)
    ensures
        angles_shown_for(FileExtension::Skel),
        angles_shown_for(FileExtension::Anim),
        angles_shown_for(file_type) <==> (file_type == FileExtension::Skel || file_type == FileExtension::Anim),
{
}

impl EdgeManager {
    pub closed spec fn wf(&self) -> bool {
        forall|e: u64| #[trigger] self.edges_3d@.contains_key(e) ==> self.edges_3d@[e].wf()
    }

    pub fn new() -> (m: Self)
        ensures
            m.wf(),
            m@ == (EdgeManagerView { resync: false, edges: Map::empty(), edges_2d: Map::empty(), angle_visibility: true }),
    {
        let m = EdgeManager { resync: false, edges_3d: HashMap::new(), edges_2d: HashMap::new(), edge_angle_visibility: true };
        assert(m@.edges =~= Map::<u64, Edge3dView>::empty());
        m
    }

    pub fn queue_resync(&mut self)
        requires
            old(self).wf(),
        ensures
            final(self).wf(),
            final(self)@ == (EdgeManagerView { resync: true, ..old(self)@ }),
    {
        self.resync = true;
    }

    pub fn get_should_sync(&self) -> (r: bool)
        ensures
            r == self@.resync,
    {
        self.resync
    }

    pub fn finish_sync(&mut self)
        requires
            old(self).wf(),
        ensures
            final(self).wf(),
            final(self)@ == (EdgeManagerView { resync: false, ..old(self)@ }),
    {
        self.resync = false;
    }

    pub fn has_edge_entity_3d(&self, entity_3d: u64) -> (r: bool)
        ensures
            r == self@.edges.contains_key(entity_3d),
    {
        self.edges_3d.contains_key(&entity_3d)
    }

    pub fn edge_entity_2d_to_3d(&self, entity_2d: u64) -> (r: Option<u64>)
        ensures
            r == (if self@.edges_2d.contains_key(entity_2d) { Some(self@.edges_2d[entity_2d]) } else { None }),
    {
        match self.edges_2d.get(&entity_2d) {
            Some(e) => Some(*e),
            None => None,
        }
    }

    pub fn edge_entity_3d_to_2d(&self, entity_3d: u64) -> (r: Option<u64>)
        ensures
            r == (if self@.edges.contains_key(entity_3d) { Some(self@.edges[entity_3d].entity_2d) } else { None }),
    {
        match self.edges_3d.get(&entity_3d) {
            Some(d) => Some(d.entity_2d),
            None => None,
        }
    }

    /// The faces bordering an edge, if it is registered.
    pub fn edge_connected_faces(&self, edge_3d: u64) -> (r: Option<Vec<FaceKey>>)
        requires
            self.wf(),
        ensures
            match r {
                Some(v) => self@.edges.contains_key(edge_3d) && v@.to_set() == self@.edges[edge_3d].faces && v@.no_duplicates(),
                None => !self@.edges.contains_key(edge_3d),
            },
    {
        match self.edges_3d.get(&edge_3d) {
            Some(d) => {
                let v = d.faces_3d.key_list();
                proof {
                    d.faces_3d.lemma_keys();
                    assert(v@.to_set() =~= self@.edges[edge_3d].faces);
                }
                Some(v)
            },
            None => None,
        }
    }

    /// Records that face `key` borders the registered edge `edge_3d`.
    pub fn edge_add_face(&mut self, edge_3d: u64, key: FaceKey)
        requires
            old(self).wf(),
            old(self)@.edges.contains_key(edge_3d),
        ensures
            final(self).wf(),
            final(self)@ == old(self)@.face_added(edge_3d, key),
    {
        let ghost before = self@;
        let mut d = self.edges_3d.remove(&edge_3d).unwrap();
        d.add_face(key);
        self.edges_3d.insert(edge_3d, d);
        assert(self@.edges =~= before.face_added(edge_3d, key).edges);
    }

    /// Forgets that face `key` borders the registered edge `edge_3d`.
    pub fn edge_remove_face(&mut self, edge_3d: u64, key: &FaceKey)
        requires
            old(self).wf(),
            old(self)@.edges.contains_key(edge_3d),
        ensures
            final(self).wf(),
            final(self)@ == old(self)@.face_removed(edge_3d, *key),
    {
        let ghost before = self@;
        let mut d = self.edges_3d.remove(&edge_3d).unwrap();
        d.remove_face(key);
        self.edges_3d.insert(edge_3d, d);
        assert(self@.edges =~= before.face_removed(edge_3d, *key).edges);
    }

    /// The two 3d vertices of a registered edge.
    pub fn edge_get_endpoints(&self, edge_3d: u64) -> (r: (u64, u64))
        requires
            self@.edges.contains_key(edge_3d),
        ensures
            r == (self@.edges[edge_3d].vertex_a, self@.edges[edge_3d].vertex_b),
    {
        let d = self.edges_3d.get(&edge_3d).unwrap();
        (d.vertex_a_3d_entity, d.vertex_b_3d_entity)
    }

    /// The entity drawing the base circle of a registered edge's angle.
    pub fn edge_get_base_circle_entity(&self, edge_3d: u64) -> (r: u64)
        requires
            self@.edges.contains_key(edge_3d),
            self@.edges[edge_3d].angle_entities is Some,
        ensures
            r == self@.edges[edge_3d].angle_entities.unwrap().0,
    {
        self.edges_3d.get(&edge_3d).unwrap().angle_entities_opt.unwrap().0
    }

    /// The entities drawing an edge's angle, if it has them.
    pub fn edge_angle_entities(&self, edge_3d: u64) -> (r: Option<(u64, u64, u64)>)
        ensures
            r == (if self@.edges.contains_key(edge_3d) { self@.edges[edge_3d].angle_entities } else { None }),
    {
        match self.edges_3d.get(&edge_3d) {
            Some(d) => d.angle_entities_opt,
            None => None,
        }
    }

    /// Flips whether edge angles are shown, in files that show them; returns
    /// whether it flipped (the canvas is then to be re-synced).
    pub fn edge_angle_visibility_toggle(&mut self, current_file_type: FileExtension) -> (toggled: bool)
        requires
            old(self).wf(),
        ensures
            toggled == angles_shown_for(current_file_type),
            (current_file_type == FileExtension::Skel || current_file_type == FileExtension::Anim)
                ==> toggled && final(self)@.angle_visibility == !old(self)@.angle_visibility,
            !(current_file_type == FileExtension::Skel || current_file_type == FileExtension::Anim)
                ==> !toggled && final(self)@ == old(self)@,
            final(self).wf(),
            final(self)@ == (EdgeManagerView {
                angle_visibility: if toggled { !old(self)@.angle_visibility } else { old(self)@.angle_visibility },
                ..old(self)@
            }),
    {
        if !Self::edge_angles_are_visible_for_filetype(current_file_type) {
            return false;
        }
        self.edge_angle_visibility = !self.edge_angle_visibility;
        true
    }

    fn edge_angles_are_visible_for_filetype(file_type: FileExtension) -> (r: bool)
        ensures
            r == angles_shown_for(file_type),
    {
        match file_type {
            FileExtension::Skel | FileExtension::Anim => true,
            _ => false,
        }
    }

    /// Whether edge angles are drawn in a file of the given type.
    pub fn edge_angles_are_visible(&self, file_ext: FileExtension) -> (r: bool)
        ensures
            r == (self@.angle_visibility && angles_shown_for(file_ext)),
            (file_ext == FileExtension::Skel || file_ext == FileExtension::Anim) ==> r == self@.angle_visibility,
            !(file_ext == FileExtension::Skel || file_ext == FileExtension::Anim) ==> !r,
    {
        self.edge_angle_visibility && Self::edge_angles_are_visible_for_filetype(file_ext)
    }

    /// Forgets a 3d edge, its 2d counterpart and its place at its vertices;
    /// returns the 2d entity.
    pub fn unregister_3d_edge(&mut self, vertex_manager: &mut VertexManager, edge_3d: u64) -> (r: Option<u64>)
        requires
            old(self).wf(),
            old(vertex_manager).wf(),
        ensures
            final(self).wf(),
            final(vertex_manager).wf(),
            match r {
                Some(e2) => {
                    let d = old(self)@.edges[edge_3d];
                    &&& old(self)@.edges.contains_key(edge_3d)
                    &&& e2 == d.entity_2d
                    &&& final(self)@ == (EdgeManagerView {
                        edges: old(self)@.edges.remove(edge_3d),
                        edges_2d: old(self)@.edges_2d.remove(e2),
                        ..old(self)@
                    })
                    &&& final(vertex_manager)@ == old(vertex_manager)@.edge_removed(d.vertex_a, edge_3d).edge_removed(d.vertex_b, edge_3d)
                },
                None => {
                    &&& !old(self)@.edges.contains_key(edge_3d)
                    &&& final(self)@ == old(self)@
                    &&& final(vertex_manager)@ == old(vertex_manager)@
                },
            },
    {
        let ghost before = self@;
        match self.edges_3d.remove(&edge_3d) {
            Some(d) => {
                let e2 = d.entity_2d;
                self.edges_2d.remove(&e2);
                vertex_manager.vertex_remove_edge(d.vertex_a_3d_entity, edge_3d);
                vertex_manager.vertex_remove_edge(d.vertex_b_3d_entity, edge_3d);
                assert(self@.edges =~= before.edges.remove(edge_3d));
                Some(e2)
            },
            None => {
                assert(self@.edges =~= before.edges);
                None
            },
        }
    }

    /// An edge joining the two registered 3d vertices, if there is one.
    pub fn edge_3d_entity_from_vertices(&self, vertex_manager: &VertexManager, vertex_3d_a: u64, vertex_3d_b: u64) -> (r: Option<u64>)
        ensures
            match r {
                Some(e) => {
                    &&& vertex_manager@.vertices.contains_key(vertex_3d_a)
                    &&& vertex_manager@.vertices.contains_key(vertex_3d_b)
                    &&& vertex_manager@.vertices[vertex_3d_a].edges.contains(e)
                    &&& vertex_manager@.vertices[vertex_3d_b].edges.contains(e)
                },
                None => !vertex_manager@.vertices.contains_key(vertex_3d_a) || !vertex_manager@.vertices.contains_key(vertex_3d_b)
                    || vertex_manager@.vertices[vertex_3d_a].edges.disjoint(vertex_manager@.vertices[vertex_3d_b].edges),
            },
    {
        let a_edges = vertex_manager.vertex_get_edges(vertex_3d_a);
        let b_edges = vertex_manager.vertex_get_edges(vertex_3d_b);
        match (a_edges, b_edges) {
            (Some(a), Some(b)) => {
                let common = a.intersection(b);
                let r = common.first();
                proof {
                    if r is None {
                        assert forall|e: u64| a@.contains(e) implies !b@.contains(e) by {
                            if b@.contains(e) {
                                assert(common@.contains(e));
                            }
                        }
                    }
                }
                r
            },
            _ => None,
        }
    }

    /// The 2d edge joining two 2d vertices, if there is one.
    pub fn edge_2d_entity_from_vertices(&self, vertex_manager: &VertexManager, vertex_2d_a: u64, vertex_2d_b: u64) -> (r: Option<u64>)
        ensures
            match r {
                Some(e2) => exists|e3: u64| {
                    &&& vertex_manager@.vertices_2d.contains_key(vertex_2d_a)
                    &&& vertex_manager@.vertices_2d.contains_key(vertex_2d_b)
                    &&& #[trigger] vertex_manager@.vertices[vertex_manager@.vertices_2d[vertex_2d_a]].edges.contains(e3)
                    &&& vertex_manager@.vertices[vertex_manager@.vertices_2d[vertex_2d_b]].edges.contains(e3)
                    &&& self@.edges.contains_key(e3)
                    &&& self@.edges[e3].entity_2d == e2
                },
                None => {
                    let vm = vertex_manager@;
                    ||| !vm.vertices_2d.contains_key(vertex_2d_a)
                    ||| !vm.vertices_2d.contains_key(vertex_2d_b)
                    ||| !vm.vertices.contains_key(vm.vertices_2d[vertex_2d_a])
                    ||| !vm.vertices.contains_key(vm.vertices_2d[vertex_2d_b])
                    ||| vm.vertices[vm.vertices_2d[vertex_2d_a]].edges.disjoint(vm.vertices[vm.vertices_2d[vertex_2d_b]].edges)
                    ||| exists|e3: u64| {
                        &&& #[trigger] vm.vertices[vm.vertices_2d[vertex_2d_a]].edges.contains(e3)
                        &&& vm.vertices[vm.vertices_2d[vertex_2d_b]].edges.contains(e3)
                        &&& !self@.edges.contains_key(e3)
                    }
                },
            },
    {
        let a3 = vertex_manager.vertex_entity_2d_to_3d(vertex_2d_a)?;
        let b3 = vertex_manager.vertex_entity_2d_to_3d(vertex_2d_b)?;
        let e3 = self.edge_3d_entity_from_vertices(vertex_manager, a3, b3)?;
        let e2 = self.edge_entity_3d_to_2d(e3)?;
        Some(e2)
    }
}

impl VertexManager {
    /// The vertices joined to a registered vertex by one of its (registered)
    /// edges.
    pub fn get_connected_vertices(&self, edge_manager: &EdgeManager, vertex_3d: u64) -> (r: IdSet)
        requires
            self@.vertices.contains_key(vertex_3d),
            edge_manager@.knows_edges_of(self@, vertex_3d),
        ensures
            r@ == self@.connected(edge_manager@.edges, vertex_3d),
    {
        let edges = self.vertex_get_edges(vertex_3d).unwrap();
        let mut set = IdSet::new();
        proof {
            edges.lemma_elements();
        }
        let mut i: usize = 0;
        while i < edges.len()
            invariant
                i <= edges.elements().len(),
                edges@ == self@.vertices[vertex_3d].edges,
                edges.elements().to_set() == edges@,
                edge_manager@.knows_edges_of(self@, vertex_3d),
                forall|w: u64| set@.contains(w) <==> exists|j: int| 0 <= j < i
                    && other_endpoint(edge_manager@.edges[#[trigger] edges.elements()[j]], vertex_3d) == Some(w),
            decreases edges.elements().len() - i,
        {
            let e = edges.get(i);
            proof {
                assert(edges.elements().contains(e));
            }
            let (a, b) = edge_manager.edge_get_endpoints(e);
            if a != vertex_3d {
                set.insert(a);
            } else if b != vertex_3d {
                set.insert(b);
            }
            proof {
                assert forall|w: u64| set@.contains(w) <==> exists|j: int| 0 <= j < i + 1
                    && other_endpoint(edge_manager@.edges[#[trigger] edges.elements()[j]], vertex_3d) == Some(w) by {
                    if set@.contains(w) && !(exists|j: int| 0 <= j < i
                        && other_endpoint(edge_manager@.edges[#[trigger] edges.elements()[j]], vertex_3d) == Some(w)) {
                        assert(other_endpoint(edge_manager@.edges[edges.elements()[i as int]], vertex_3d) == Some(w));
                    }
                }
            }
            i = i + 1;
        }
        proof {
            assert(set@ =~= self@.connected(edge_manager@.edges, vertex_3d)) by {
                assert forall|w: u64| set@.contains(w) <==> self@.connected(edge_manager@.edges, vertex_3d).contains(w) by {
                    if set@.contains(w) {
                        let j = choose|j: int| 0 <= j < edges.elements().len()
                            && other_endpoint(edge_manager@.edges[#[trigger] edges.elements()[j]], vertex_3d) == Some(w);
                        assert(self@.vertices[vertex_3d].edges.contains(edges.elements()[j]));
                    }
                    if self@.connected(edge_manager@.edges, vertex_3d).contains(w) {
                        let e = choose|e: u64| #[trigger] self@.vertices[vertex_3d].edges.contains(e)
                            && other_endpoint(edge_manager@.edges[e], vertex_3d) == Some(w);
                        assert(edges.elements().contains(e));
                        let j = choose|j: int| 0 <= j < edges.elements().len() && edges.elements()[j] == e;
                        assert(other_endpoint(edge_manager@.edges[edges.elements()[j]], vertex_3d) == Some(w));
                    }
                }
            }
        }
        set
    }
}

// ---------------------------------------------------------------- faces

/// The abstract state of the face registry.
pub struct FaceManagerView {
    pub resync: bool,
    /// Every known triangle; `None` until its 2d face was made.
    pub face_keys: Map<FaceKey, Option<FaceData>>,
    pub faces_3d: Map<u64, FaceKey>,
    pub faces_2d: Map<u64, FaceKey>,
    /// Newly found triangles waiting for their 2d face, with their file.
    pub new_face_keys: Seq<(FaceKey, u64)>,
}

impl FaceManagerView {
    /// The face of `key` has its 2d face.
    pub open spec fn has_2d_face(self, key: FaceKey) -> bool {
        self.face_keys.contains_key(key) && self.face_keys[key] is Some
    }

    pub open spec fn data(self, key: FaceKey) -> FaceData {
        self.face_keys[key].unwrap()
    }
}

/// The triangles closed by an edge between `a` and `b`: one for each vertex
/// joined to both.
pub open spec fn closed_triangles(vm: VertexManagerView, edges: Map<u64, Edge3dView>, a: u64, b: u64) -> Set<FaceKey> {
    Set::new(|k: FaceKey| exists|c: u64| #[trigger] vm.connected(edges, a).contains(c) && vm.connected(edges, b).contains(c)
        && k == face_key_of(a, b, c))
}

/// `new` is `old` after the triangles `candidates` were looked at: those not
/// known yet are recorded (without a 2d face) and queued, once each, with `file`.
pub open spec fn faces_checked(old: FaceManagerView, new: FaceManagerView, candidates: Set<FaceKey>, file: u64) -> bool {
    let added = new.new_face_keys.skip(old.new_face_keys.len() as int);
    &&& new.resync == old.resync
    &&& new.faces_3d == old.faces_3d
    &&& new.faces_2d == old.faces_2d
    &&& forall|k: FaceKey| #[trigger] new.face_keys.contains_key(k) <==> (old.face_keys.contains_key(k) || candidates.contains(k))
    &&& forall|k: FaceKey| #[trigger] old.face_keys.contains_key(k) ==> new.face_keys[k] == old.face_keys[k]
    &&& forall|k: FaceKey| !old.face_keys.contains_key(k) && #[trigger] candidates.contains(k) ==> new.face_keys[k] is None
    &&& new.new_face_keys.len() >= old.new_face_keys.len()
    &&& new.new_face_keys.take(old.new_face_keys.len() as int) == old.new_face_keys
    &&& added.no_duplicates()
    &&& forall|entry: (FaceKey, u64)| #[trigger] added.contains(entry) <==> (entry.1 == file && candidates.contains(entry.0)
        && !old.face_keys.contains_key(entry.0))
}

/// The one edge that the two vertices share, when they share exactly one.
pub open spec fn sole_common_edge(vm: VertexManagerView, x: u64, y: u64) -> u64 {
    choose|e: u64| vm.vertices[x].edges.intersect(vm.vertices[y].edges) == set![e]
}

/// The two registered vertices share exactly one edge, and it is registered.
pub open spec fn shares_one_edge(vm: VertexManagerView, em: EdgeManagerView, x: u64, y: u64) -> bool {
    &&& vm.vertices.contains_key(x)
    &&& vm.vertices.contains_key(y)
    &&& exists|e: u64| vm.vertices[x].edges.intersect(vm.vertices[y].edges) == set![e]
    &&& em.edges.contains_key(sole_common_edge(vm, x, y))
}

/// The faces: triangles of the shape graph, their 2d and 3d entities.
pub struct FaceManager {
    resync: bool,
    face_keys: FaceMap<Option<FaceData>>,
    faces_3d: HashMap<u64, FaceKey>,
    faces_2d: HashMap<u64, FaceKey>,
    new_face_keys: Vec<(FaceKey, u64)>,
}

impl View for FaceManager {
    type V = FaceManagerView;

    closed spec fn view(&self) -> FaceManagerView {
        FaceManagerView {
            resync: self.resync,
            face_keys: self.face_keys@,
            faces_3d: self.faces_3d@,
            faces_2d: self.faces_2d@,
            new_face_keys: self.new_face_keys@,
        }
    }
}

impl FaceManager {
    pub closed spec fn wf(&self) -> bool {
        self.face_keys.wf()
    }

    pub fn new() -> (m: Self)
        ensures
            m.wf(),
            m@ == (FaceManagerView {
                resync: false,
                face_keys: Map::empty(),
                faces_3d: Map::empty(),
                faces_2d: Map::empty(),
                new_face_keys: Seq::empty(),
            }),
    {
        FaceManager {
            resync: false,
            face_keys: FaceMap::new(),
            faces_3d: HashMap::new(),
            faces_2d: HashMap::new(),
            new_face_keys: Vec::new(),
        }
    }

    pub fn queue_resync(&mut self)
        requires
            old(self).wf(),
        ensures
            final(self).wf(),
            final(self)@ == (FaceManagerView { resync: true, ..old(self)@ }),
    {
        self.resync = true;
    }

    /// Whether the 2d faces are to be re-synced; the request is cleared.
    pub fn take_resync(&mut self) -> (r: bool)
        requires
            old(self).wf(),
        ensures
            final(self).wf(),
            r == old(self)@.resync,
            final(self)@ == (FaceManagerView { resync: false, ..old(self)@ }),
    {
        let r = self.resync;
        self.resync = false;
        r
    }

    /// Takes the queue of newly found triangles, in order.
    pub fn take_new_face_keys(&mut self) -> (keys: Vec<(FaceKey, u64)>)
        requires
            old(self).wf(),
        ensures
            final(self).wf(),
            keys@ == old(self)@.new_face_keys,
            final(self)@ == (FaceManagerView { new_face_keys: Seq::empty(), ..old(self)@ }),
    {
        let mut keys = Vec::new();
        std::mem::swap(&mut keys, &mut self.new_face_keys);
        keys
    }

    /// Drops a triangle from the queue of new ones.
    pub fn remove_new_face_key(&mut self, key: &FaceKey)
        requires
            old(self).wf(),
        ensures
            final(self).wf(),
            final(self)@ == (FaceManagerView {
                new_face_keys: old(self)@.new_face_keys.filter(|e: (FaceKey, u64)| e.0 != *key),
                ..old(self)@
            }),
    {
        let ghost pred = |e: (FaceKey, u64)| e.0 != *key;
        let mut kept: Vec<(FaceKey, u64)> = Vec::new();
        let mut i: usize = 0;
        while i < self.new_face_keys.len()
            invariant
                i <= self.new_face_keys@.len(),
                kept@ == self.new_face_keys@.subrange(0, i as int).filter(pred),
                pred == (|e: (FaceKey, u64)| e.0 != *key),
            decreases self.new_face_keys@.len() - i,
        {
            let e = self.new_face_keys[i];
            proof {
                assert(self.new_face_keys@.subrange(0, i + 1).drop_last() == self.new_face_keys@.subrange(0, i as int));
                reveal_with_fuel(Seq::filter, 1);
            }
            if e.0 != *key {
                kept.push(e);
            }
            i = i + 1;
        }
        assert(self.new_face_keys@.subrange(0, self.new_face_keys@.len() as int) == self.new_face_keys@);
        self.new_face_keys = kept;
    }

    pub fn has_2d_face(&self, key: &FaceKey) -> (r: bool)
        requires
            self.wf(),
        ensures
            r == self@.has_2d_face(*key),
    {
        match self.face_keys.get(key) {
            Some(Some(_)) => true,
            _ => false,
        }
    }

    pub fn has_face_entity_3d(&self, entity_3d: u64) -> (r: bool)
        ensures
            r == self@.faces_3d.contains_key(entity_3d),
    {
        self.faces_3d.contains_key(&entity_3d)
    }

    pub fn face_key_from_2d_entity(&self, entity_2d: u64) -> (r: Option<FaceKey>)
        ensures
            r == (if self@.faces_2d.contains_key(entity_2d) { Some(self@.faces_2d[entity_2d]) } else { None }),
    {
        match self.faces_2d.get(&entity_2d) {
            Some(k) => Some(*k),
            None => None,
        }
    }

    pub fn face_2d_entity_from_face_key(&self, key: &FaceKey) -> (r: Option<u64>)
        requires
            self.wf(),
        ensures
            r == (if self@.has_2d_face(*key) { Some(self@.data(*key).entity_2d) } else { None }),
    {
        match self.face_keys.get(key) {
            Some(Some(d)) => Some(d.entity_2d),
            _ => None,
        }
    }

    pub fn face_3d_entity_from_face_key(&self, key: &FaceKey) -> (r: Option<u64>)
        requires
            self.wf(),
        ensures
            r == (if self@.has_2d_face(*key) { self@.data(*key).entity_3d } else { None }),
    {
        match self.face_keys.get(key) {
            Some(Some(d)) => d.entity_3d,
            _ => None,
        }
    }

    /// The 3d face of a 2d face, if it has one.
    pub fn face_entity_2d_to_3d(&self, entity_2d: u64) -> (r: Option<u64>)
        requires
            self.wf(),
        ensures
            r == (if self@.faces_2d.contains_key(entity_2d) && self@.has_2d_face(self@.faces_2d[entity_2d]) {
                self@.data(self@.faces_2d[entity_2d]).entity_3d
            } else {
                None
            }),
    {
        match self.faces_2d.get(&entity_2d) {
            Some(k) => self.face_3d_entity_from_face_key(k),
            None => None,
        }
    }

    /// The 2d face of a 3d face, if it has one.
    pub fn face_entity_3d_to_2d(&self, entity_3d: u64) -> (r: Option<u64>)
        requires
            self.wf(),
        ensures
            r == (if self@.faces_3d.contains_key(entity_3d) && self@.has_2d_face(self@.faces_3d[entity_3d]) {
                Some(self@.data(self@.faces_3d[entity_3d]).entity_2d)
            } else {
                None
            }),
    {
        match self.faces_3d.get(&entity_3d) {
            Some(k) => self.face_2d_entity_from_face_key(k),
            None => None,
        }
    }

    /// Links the networked 3d face `entity_3d` to the face of `key`, which
    /// has its 2d face.
    pub fn register_3d_face(&mut self, entity_3d: u64, key: &FaceKey)
        requires
            old(self).wf(),
            old(self)@.has_2d_face(*key),
        ensures
            final(self).wf(),
            final(self)@ == (FaceManagerView {
                faces_3d: old(self)@.faces_3d.insert(entity_3d, *key),
                face_keys: old(self)@.face_keys.insert(*key, Some(FaceData { entity_3d: Some(entity_3d), ..old(self)@.data(*key) })),
                ..old(self)@
            }),
    {
        self.faces_3d.insert(entity_3d, *key);
        let mut d = self.face_keys.get(key).unwrap().unwrap();
        d.entity_3d = Some(entity_3d);
        self.face_keys.insert(*key, Some(d));
    }

    /// Unlinks the registered networked 3d face `entity_3d`; returns the 2d
    /// face of its triangle when that triangle still has one.
    pub fn unregister_3d_face(&mut self, entity_3d: u64) -> (r: Option<u64>)
        requires
            old(self).wf(),
            old(self)@.faces_3d.contains_key(entity_3d),
        ensures
            final(self).wf(),
            ({
                let key = old(self)@.faces_3d[entity_3d];
                let base = FaceManagerView { faces_3d: old(self)@.faces_3d.remove(entity_3d), ..old(self)@ };
                if old(self)@.has_2d_face(key) {
                    &&& r == Some(old(self)@.data(key).entity_2d)
                    &&& final(self)@ == (FaceManagerView {
                        face_keys: base.face_keys.insert(key, Some(FaceData { entity_3d: None, ..old(self)@.data(key) })),
                        ..base
                    })
                } else {
                    r is None && final(self)@ == base
                }
            }),
    {
        let key = self.faces_3d.remove(&entity_3d).unwrap();
        match self.face_keys.get(&key) {
            Some(Some(d)) => {
                let mut d = *d;
                d.entity_3d = None;
                let e2 = d.entity_2d;
                self.face_keys.insert(key, Some(d));
                Some(e2)
            },
            _ => None,
        }
    }

    /// Forgets the triangle `key`: its 2d face and its place at its vertices
    /// and edges. Returns the 2d face when it had one.
    pub fn unregister_face_key(&mut self, vertex_manager: &mut VertexManager, edge_manager: &mut EdgeManager, key: &FaceKey) -> (r: Option<u64>)
        requires
            old(self).wf(),
            old(vertex_manager).wf(),
            old(edge_manager).wf(),
            old(self)@.has_2d_face(*key) ==> {
                let d = old(self)@.data(*key);
                &&& old(edge_manager)@.edges.contains_key(d.edge_3d_a)
                &&& old(edge_manager)@.edges.contains_key(d.edge_3d_b)
                &&& old(edge_manager)@.edges.contains_key(d.edge_3d_c)
            },
        ensures
            final(self).wf(),
            final(vertex_manager).wf(),
            final(edge_manager).wf(),
            ({
                let k = *key;
                let removed = FaceManagerView { face_keys: old(self)@.face_keys.remove(k), ..old(self)@ };
                if old(self)@.has_2d_face(k) {
                    let d = old(self)@.data(k);
                    &&& r == Some(d.entity_2d)
                    &&& final(self)@ == (FaceManagerView { faces_2d: removed.faces_2d.remove(d.entity_2d), ..removed })
                    &&& final(vertex_manager)@ == old(vertex_manager)@.face_removed(k.vertex_3d_a, k).face_removed(
                        k.vertex_3d_b,
                        k,
                    ).face_removed(k.vertex_3d_c, k)
                    &&& final(edge_manager)@ == old(edge_manager)@.face_removed(d.edge_3d_a, k).face_removed(d.edge_3d_b, k).face_removed(
                        d.edge_3d_c,
                        k,
                    )
                } else {
                    &&& r is None
                    &&& final(self)@ == removed
                    &&& final(vertex_manager)@ == old(vertex_manager)@
                    &&& final(edge_manager)@ == old(edge_manager)@
                }
            }),
    {
        let removed = self.face_keys.remove(key);
        match removed {
            Some(Some(d)) => {
                self.faces_2d.remove(&d.entity_2d);
                vertex_manager.vertex_remove_face(key.vertex_3d_a, key);
                vertex_manager.vertex_remove_face(key.vertex_3d_b, key);
                vertex_manager.vertex_remove_face(key.vertex_3d_c, key);
                edge_manager.edge_remove_face(d.edge_3d_a, key);
                edge_manager.edge_remove_face(d.edge_3d_b, key);
                edge_manager.edge_remove_face(d.edge_3d_c, key);
                Some(d.entity_2d)
            },
            _ => None,
        }
    }
}

impl FaceManager {
    /// Records and queues, with `file_entity`, every triangle closed by the
    /// edge between the registered vertices `vertex_a` and `vertex_b` that is
    /// not known yet.
    pub fn check_for_new_faces(
        &mut self,
        vertex_manager: &VertexManager,
        edge_manager: &EdgeManager,
        vertex_a: u64,
        vertex_b: u64,
        file_entity: u64,
    )
        requires
            old(self).wf(),
            vertex_manager@.vertices.contains_key(vertex_a),
            vertex_manager@.vertices.contains_key(vertex_b),
            edge_manager@.knows_edges_of(vertex_manager@, vertex_a),
            edge_manager@.knows_edges_of(vertex_manager@, vertex_b),
        ensures
            final(self).wf(),
            faces_checked(old(self)@, final(self)@, closed_triangles(vertex_manager@, edge_manager@.edges, vertex_a, vertex_b), file_entity),
    {
        let ghost old_view = self@;
        let ghost candidates = closed_triangles(vertex_manager@, edge_manager@.edges, vertex_a, vertex_b);
        let ghost start_len = self.new_face_keys@.len();
        let conn_a = vertex_manager.get_connected_vertices(edge_manager, vertex_a);
        let conn_b = vertex_manager.get_connected_vertices(edge_manager, vertex_b);
        let common = conn_a.intersection(&conn_b);
        proof {
            common.lemma_elements();
        }
        let mut i: usize = 0;
        while i < common.len()
            invariant
                self.wf(),
                i <= common.elements().len(),
                common@ == conn_a@.intersect(conn_b@),
                common.elements().to_set() == common@,
                conn_a@ == vertex_manager@.connected(edge_manager@.edges, vertex_a),
                conn_b@ == vertex_manager@.connected(edge_manager@.edges, vertex_b),
                self@.resync == old_view.resync,
                self@.faces_3d == old_view.faces_3d,
                self@.faces_2d == old_view.faces_2d,
                forall|k: FaceKey| #[trigger] self@.face_keys.contains_key(k) <==> (old_view.face_keys.contains_key(k)
                    || exists|j: int| 0 <= j < i && k == face_key_of(vertex_a, vertex_b, #[trigger] common.elements()[j])),
                forall|k: FaceKey| #[trigger] old_view.face_keys.contains_key(k) ==> self@.face_keys[k] == old_view.face_keys[k],
                forall|k: FaceKey| !old_view.face_keys.contains_key(k) && #[trigger] self@.face_keys.contains_key(k) ==> self@.face_keys[k] is None,
                self@.new_face_keys.len() >= start_len,
                start_len == old_view.new_face_keys.len(),
                self@.new_face_keys.take(start_len as int) == old_view.new_face_keys,
                self@.new_face_keys.skip(start_len as int).no_duplicates(),
                forall|entry: (FaceKey, u64)| #[trigger] self@.new_face_keys.skip(start_len as int).contains(entry) <==> (entry.1
                    == file_entity && self@.face_keys.contains_key(entry.0) && !old_view.face_keys.contains_key(entry.0)),
            decreases common.elements().len() - i,
        {
            let c = common.get(i);
            let key = FaceKey::new(vertex_a, vertex_b, c);
            let ghost before = self@;
            if !self.face_keys.contains_key(&key) {
                self.face_keys.insert(key, None);
                self.new_face_keys.push((key, file_entity));
                proof {
                    let added_before = before.new_face_keys.skip(start_len as int);
                    let added = self@.new_face_keys.skip(start_len as int);
                    assert(added =~= added_before.push((key, file_entity)));
                    assert(self@.new_face_keys.take(start_len as int) =~= before.new_face_keys.take(start_len as int));
                    assert(!added_before.contains((key, file_entity)));
                    assert forall|entry: (FaceKey, u64)| #[trigger] added.contains(entry) <==> (entry.1 == file_entity
                        && self@.face_keys.contains_key(entry.0) && !old_view.face_keys.contains_key(entry.0)) by {
                        if added.contains(entry) && entry != (key, file_entity) {
                            let k = choose|k: int| 0 <= k < added.len() && added[k] == entry;
                            assert(added_before[k] == entry);
                            assert(added_before.contains(entry));
                        }
                        if entry.1 == file_entity && self@.face_keys.contains_key(entry.0) && !old_view.face_keys.contains_key(entry.0)
                            && entry != (key, file_entity) {
                            assert(entry.0 != key);
                            assert(added_before.contains(entry));
                            let k = choose|k: int| 0 <= k < added_before.len() && added_before[k] == entry;
                            assert(added[k] == entry);
                        }
                        if entry == (key, file_entity) {
                            assert(added[added.len() - 1] == entry);
                        }
                    }
                }
            }
            proof {
                assert forall|k: FaceKey| #[trigger] self@.face_keys.contains_key(k) <==> (old_view.face_keys.contains_key(k)
                    || exists|j: int| 0 <= j < i + 1 && k == face_key_of(vertex_a, vertex_b, #[trigger] common.elements()[j])) by {
                    if k == key {
                        assert(k == face_key_of(vertex_a, vertex_b, common.elements()[i as int]));
                    }
                    if exists|j: int| 0 <= j < i + 1 && k == face_key_of(vertex_a, vertex_b, #[trigger] common.elements()[j]) {
                        let j = choose|j: int| 0 <= j < i + 1 && k == face_key_of(vertex_a, vertex_b, #[trigger] common.elements()[j]);
                        if j == i {
                            assert(k == key);
                        }
                    }
                }
            }
            i = i + 1;
        }
        proof {
            assert forall|k: FaceKey| (exists|j: int| 0 <= j < common.elements().len() && k == face_key_of(vertex_a, vertex_b, #[trigger] common.elements()[j]))
                <==> #[trigger] candidates.contains(k) by {
                if exists|j: int| 0 <= j < common.elements().len() && k == face_key_of(vertex_a, vertex_b, #[trigger] common.elements()[j]) {
                    let j = choose|j: int| 0 <= j < common.elements().len() && k == face_key_of(vertex_a, vertex_b, #[trigger] common.elements()[j]);
                    let c = common.elements()[j];
                    assert(common.elements().contains(c));
                    assert(conn_a@.contains(c) && conn_b@.contains(c));
                }
                if candidates.contains(k) {
                    let c = choose|c: u64| #[trigger] vertex_manager@.connected(edge_manager@.edges, vertex_a).contains(c)
                        && vertex_manager@.connected(edge_manager@.edges, vertex_b).contains(c) && k == face_key_of(vertex_a, vertex_b, c);
                    assert(common@.contains(c));
                    assert(common.elements().contains(c));
                    let j = choose|j: int| 0 <= j < common.elements().len() && common.elements()[j] == c;
                }
            }
            assert forall|k: FaceKey| #[trigger] self@.face_keys.contains_key(k) <==> (old_view.face_keys.contains_key(k)
                || candidates.contains(k)) by {
                if candidates.contains(k) {
                    assert(exists|j: int| 0 <= j < common.elements().len() && k == face_key_of(vertex_a, vertex_b, #[trigger] common.elements()[j]));
                }
            }
            assert forall|k: FaceKey| !old_view.face_keys.contains_key(k) && #[trigger] candidates.contains(k) implies self@.face_keys[k] is None by {
                assert(self@.face_keys.contains_key(k));
            }
            let added = self@.new_face_keys.skip(start_len as int);
            assert forall|entry: (FaceKey, u64)| #[trigger] added.contains(entry) <==> (entry.1 == file_entity && candidates.contains(entry.0)
                && !old_view.face_keys.contains_key(entry.0)) by {
                if candidates.contains(entry.0) {
                    assert(self@.face_keys.contains_key(entry.0));
                }
                if self@.face_keys.contains_key(entry.0) && !old_view.face_keys.contains_key(entry.0) {
                    assert(candidates.contains(entry.0));
                }
            }
        }
    }
}

impl EdgeManager {
    /// Registers the 3d edge `edge_3d` between the registered vertices
    /// `vertex_a` and `vertex_b`, with its 2d counterpart and angle entities.
    /// When the edge belongs to a file, the triangles it closes are recorded
    /// and queued as new faces.
    pub fn register_3d_edge(
        &mut self,
        vertex_manager: &mut VertexManager,
        face_manager: &mut FaceManager,
        edge_3d: u64,
        edge_2d: u64,
        vertex_a: u64,
        vertex_b: u64,
        ownership_opt: Option<u64>,
        angle_entities_opt: Option<(u64, u64, u64)>,
    )
        requires
            old(self).wf(),
            old(vertex_manager).wf(),
            old(face_manager).wf(),
            old(vertex_manager)@.vertices.contains_key(vertex_a),
            old(vertex_manager)@.vertices.contains_key(vertex_b),
            ownership_opt is Some ==> forall|e: u64| #[trigger] old(vertex_manager)@.vertices[vertex_a].edges.contains(e)
                || old(vertex_manager)@.vertices[vertex_b].edges.contains(e) ==> e == edge_3d || old(self)@.edges.contains_key(e),
        ensures
            final(self).wf(),
            final(vertex_manager).wf(),
            final(face_manager).wf(),
            final(vertex_manager)@ == old(vertex_manager)@.edge_added(vertex_a, edge_3d).edge_added(vertex_b, edge_3d),
            final(self)@ == (EdgeManagerView {
                edges: old(self)@.edges.insert(
                    edge_3d,
                    Edge3dView { entity_2d: edge_2d, vertex_a, vertex_b, faces: Set::empty(), angle_entities: angle_entities_opt },
                ),
                edges_2d: old(self)@.edges_2d.insert(edge_2d, edge_3d),
                ..old(self)@
            }),
            match ownership_opt {
                Some(file) => faces_checked(
                    old(face_manager)@,
                    final(face_manager)@,
                    closed_triangles(final(vertex_manager)@, final(self)@.edges, vertex_a, vertex_b),
                    file,
                ),
                None => final(face_manager)@ == old(face_manager)@,
            },
            edges_consistent(old(vertex_manager)@, old(self)@) && !old(self)@.edges.contains_key(edge_3d)
                && !old(self)@.edges_2d.contains_key(edge_2d) ==> edges_consistent(final(vertex_manager)@, final(self)@),
    {
        let ghost before = self@;
        let ghost vm0 = vertex_manager@;
        proof {
            if edges_consistent(vm0, before) && !before.edges.contains_key(edge_3d) && !before.edges_2d.contains_key(edge_2d) {
                lemma_register_edge_keeps_edges_consistent(vm0, before, edge_3d, edge_2d, vertex_a, vertex_b, angle_entities_opt);
            }
        }
        vertex_manager.vertex_add_edge(vertex_a, edge_3d);
        vertex_manager.vertex_add_edge(vertex_b, edge_3d);
        self.edges_3d.insert(edge_3d, Edge3dData::new(edge_2d, vertex_a, vertex_b, angle_entities_opt));
        self.edges_2d.insert(edge_2d, edge_3d);
        assert(self@.edges =~= before.edges.insert(
            edge_3d,
            Edge3dView { entity_2d: edge_2d, vertex_a, vertex_b, faces: Set::empty(), angle_entities: angle_entities_opt },
        ));
        if let Some(file_entity) = ownership_opt {
            assert forall|e: u64| #[trigger] vertex_manager@.vertices[vertex_a].edges.contains(e)
                implies self@.edges.contains_key(e) by {
                if e != edge_3d {
                    assert(vm0.vertices[vertex_a].edges.contains(e) || vm0.vertices[vertex_b].edges.contains(e));
                }
            }
            assert forall|e: u64| #[trigger] vertex_manager@.vertices[vertex_b].edges.contains(e)
                implies self@.edges.contains_key(e) by {
                if e != edge_3d {
                    assert(vm0.vertices[vertex_a].edges.contains(e) || vm0.vertices[vertex_b].edges.contains(e));
                }
            }
            face_manager.check_for_new_faces(vertex_manager, self, vertex_a, vertex_b, file_entity);
        }
    }
}

/// The registries once the 2d face `entity_2d` of the triangle `k`, in
/// `file`, was recorded at the triangle's three vertices, at the edge joining
/// each pair of them, and with the triangle.
pub open spec fn face_registered(
    before: (VertexManagerView, EdgeManagerView, FaceManagerView),
    file: u64,
    k: FaceKey,
    entity_2d: u64,
) -> (VertexManagerView, EdgeManagerView, FaceManagerView) {
    let (vm, em, fm) = before;
    let e_ab = sole_common_edge(vm, k.vertex_3d_a, k.vertex_3d_b);
    let e_bc = sole_common_edge(vm, k.vertex_3d_b, k.vertex_3d_c);
    let e_ca = sole_common_edge(vm, k.vertex_3d_c, k.vertex_3d_a);
    (
        vm.face_added(k.vertex_3d_a, k).face_added(k.vertex_3d_b, k).face_added(k.vertex_3d_c, k),
        em.face_added(e_ab, k).face_added(e_bc, k).face_added(e_ca, k),
        FaceManagerView {
            face_keys: fm.face_keys.insert(
                k,
                Some(FaceData { entity_3d: None, entity_2d, file_entity: file, edge_3d_a: e_ab, edge_3d_b: e_bc, edge_3d_c: e_ca }),
            ),
            faces_2d: fm.faces_2d.insert(entity_2d, k),
            ..fm
        },
    )
}

impl FaceManager {
    fn common_edge(vertex_manager: &VertexManager, x: u64, y: u64) -> (e: u64)
        requires
            vertex_manager@.vertices.contains_key(x),
            vertex_manager@.vertices.contains_key(y),
            exists|e: u64| vertex_manager@.vertices[x].edges.intersect(vertex_manager@.vertices[y].edges) == set![e],
        ensures
            e == sole_common_edge(vertex_manager@, x, y),
    {
        let xs = vertex_manager.vertex_get_edges(x).unwrap();
        let ys = vertex_manager.vertex_get_edges(y).unwrap();
        let common = xs.intersection(ys);
        let e = common.first().unwrap();
        proof {
            let s = choose|s: u64| vertex_manager@.vertices[x].edges.intersect(vertex_manager@.vertices[y].edges) == set![s];
            assert(common@ == set![s]);
            assert(common@.contains(e));
            assert(e == s);
        }
        e
    }

    /// Registers the 2d face `entity_2d` of the triangle `key` (which has no
    /// 2d face yet) in `file_entity`: the face is recorded at its three
    /// vertices and at the three edges joining them, one for each side.
    pub fn register_new_face(
        &mut self,
        vertex_manager: &mut VertexManager,
        edge_manager: &mut EdgeManager,
        file_entity: u64,
        key: &FaceKey,
        entity_2d: u64,
    )
        requires
            old(self).wf(),
            old(vertex_manager).wf(),
            old(edge_manager).wf(),
            !old(self)@.has_2d_face(*key),
            shares_one_edge(old(vertex_manager)@, old(edge_manager)@, key.vertex_3d_a, key.vertex_3d_b),
            shares_one_edge(old(vertex_manager)@, old(edge_manager)@, key.vertex_3d_b, key.vertex_3d_c),
            shares_one_edge(old(vertex_manager)@, old(edge_manager)@, key.vertex_3d_c, key.vertex_3d_a),
        ensures
            final(self).wf(),
            final(vertex_manager).wf(),
            final(edge_manager).wf(),
            (final(vertex_manager)@, final(edge_manager)@, final(self)@) == face_registered(
                (old(vertex_manager)@, old(edge_manager)@, old(self)@),
                file_entity,
                *key,
                entity_2d,
            ),
    {
        let a = key.vertex_3d_a;
        let b = key.vertex_3d_b;
        let c = key.vertex_3d_c;
        let ghost vm0 = vertex_manager@;
        let e_ab = Self::common_edge(vertex_manager, a, b);
        let e_bc = Self::common_edge(vertex_manager, b, c);
        let e_ca = Self::common_edge(vertex_manager, c, a);
        vertex_manager.vertex_add_face(a, *key);
        vertex_manager.vertex_add_face(b, *key);
        vertex_manager.vertex_add_face(c, *key);
        edge_manager.edge_add_face(e_ab, *key);
        edge_manager.edge_add_face(e_bc, *key);
        edge_manager.edge_add_face(e_ca, *key);
        self.face_keys.insert(*key, Some(FaceData::new(entity_2d, file_entity, e_ab, e_bc, e_ca)));
        self.faces_2d.insert(entity_2d, *key);
    }
}

/// Making the 2d face of a triangle that has none, and then forgetting the
/// triangle, gives back the vertices, the edges and the faces as they were,
/// but for the triangle, which is no longer known at all.
pub proof fn lemma_register_then_unregister_face(
    vm: VertexManagerView,
    em: EdgeManagerView,
    fm: FaceManagerView,
    file: u64,
    k: FaceKey,
    entity_2d: u64,
)
    requires
        !fm.has_2d_face(k),
        !fm.faces_2d.contains_key(entity_2d),
        shares_one_edge(vm, em, k.vertex_3d_a, k.vertex_3d_b),
        shares_one_edge(vm, em, k.vertex_3d_b, k.vertex_3d_c),
        shares_one_edge(vm, em, k.vertex_3d_c, k.vertex_3d_a),
        !vm.vertices[k.vertex_3d_a].faces.contains(k),
        !vm.vertices[k.vertex_3d_b].faces.contains(k),
        !vm.vertices[k.vertex_3d_c].faces.contains(k),
        !em.edges[sole_common_edge(vm, k.vertex_3d_a, k.vertex_3d_b)].faces.contains(k),
        !em.edges[sole_common_edge(vm, k.vertex_3d_b, k.vertex_3d_c)].faces.contains(k),
        !em.edges[sole_common_edge(vm, k.vertex_3d_c, k.vertex_3d_a)].faces.contains(k),
    ensures
        ({
            let (v1, e1, f1) = face_registered((vm, em, fm), file, k, entity_2d);
            key_unregistered(v1, e1, f1, k) == (vm, em, FaceManagerView { face_keys: fm.face_keys.remove(k), ..fm })
        }),
{
    let (v1, e1, f1) = face_registered((vm, em, fm), file, k, entity_2d);
    let (v2, e2, f2) = key_unregistered(v1, e1, f1, k);
    let (a, b, c) = (k.vertex_3d_a, k.vertex_3d_b, k.vertex_3d_c);
    let ab = sole_common_edge(vm, a, b);
    let bc = sole_common_edge(vm, b, c);
    let ca = sole_common_edge(vm, c, a);
    assert forall|v: u64| #[trigger] v2.vertices.contains_key(v) <==> vm.vertices.contains_key(v) by {}
    assert forall|v: u64| vm.vertices.contains_key(v) implies #[trigger] v2.vertices[v] == vm.vertices[v] by {
        if v == a || v == b || v == c {
            assert(v2.vertices[v].faces =~= vm.vertices[v].faces);
        }
    }
    assert(v2.vertices =~= vm.vertices);
    assert forall|e: u64| em.edges.contains_key(e) implies #[trigger] e2.edges[e] == em.edges[e] by {
        if e == ab || e == bc || e == ca {
            assert(e2.edges[e].faces =~= em.edges[e].faces);
        }
    }
    assert(e2.edges =~= em.edges);
    assert(f2.face_keys =~= fm.face_keys.remove(k));
    assert(f2.faces_2d =~= fm.faces_2d);
}

/// An edge is drawn enabled when it is bound to a shape with a non-empty
/// name.
pub fn edge_is_enabled(shape_name_opt: Option<&String>) -> (r: bool)
    ensures
        r == (shape_name_opt matches Some(name) && name@.len() > 0),
{
    match shape_name_opt {
        Some(name) => !name.as_str().is_empty(),
        None => false,
    }
}

impl Default for VertexManager {
    fn default() -> (m: Self)
        ensures
            m.wf(),
            m@.vertices == Map::<u64, Vertex3dView>::empty(),
            m@.vertices_2d == Map::<u64, u64>::empty(),
    {
        VertexManager::new()
    }
}

impl Default for EdgeManager {
    fn default() -> (m: Self)
        ensures
            m.wf(),
            m@ == (EdgeManagerView { resync: false, edges: Map::empty(), edges_2d: Map::empty(), angle_visibility: true }),
    {
        EdgeManager::new()
    }
}

impl Default for FaceManager {
    fn default() -> (m: Self)
        ensures
            m.wf(),
            m@ == (FaceManagerView {
                resync: false,
                face_keys: Map::empty(),
                faces_3d: Map::empty(),
                faces_2d: Map::empty(),
                new_face_keys: Seq::empty(),
            }),
    {
        FaceManager::new()
    }
}

} // verus!
