use std::collections::HashMap;
use vstd::prelude::*;
use crate::face_map::FaceMap;
use crate::icon_data::{IconEdgeData, IconEdgeView, IconFaceData, IconVertexData, IconVertexView};
use crate::id_set::IdSet;
use crate::shape_data::{face_key_of, CanvasShape, FaceKey};

verus! {

broadcast use vstd::std_specs::hash::group_hash_axioms;

/// The shapes of the icon editor: vertices and edges (each in a frame), and
/// the triangles they close, with their local (2d) and networked faces.
pub struct IconShapes {
    vertices: HashMap<u64, IconVertexData>,
    edges: HashMap<u64, IconEdgeData>,
    face_keys: FaceMap<Option<IconFaceData>>,
    local_faces: HashMap<u64, FaceKey>,
    net_faces: HashMap<u64, FaceKey>,
    new_face_keys: Vec<(FaceKey, u64, u64)>,
}

pub struct IconShapesView {
    pub vertices: Map<u64, IconVertexView>,
    pub edges: Map<u64, IconEdgeView>,
    /// Every known triangle; `None` until its local face was made.
    pub face_keys: Map<FaceKey, Option<IconFaceData>>,
    /// local face entity -> triangle
    pub local_faces: Map<u64, FaceKey>,
    /// networked face entity -> triangle
    pub net_faces: Map<u64, FaceKey>,
    /// Newly found triangles waiting for their local face, with their file
    /// and frame.
    pub new_face_keys: Seq<(FaceKey, u64, u64)>,
}

impl View for IconShapes {
    type V = IconShapesView;

    closed spec fn view(&self) -> IconShapesView {
        IconShapesView {
            vertices: self.vertices@.map_values(|d: IconVertexData| d@),
            edges: self.edges@.map_values(|d: IconEdgeData| d@),
            face_keys: self.face_keys@,
            local_faces: self.local_faces@,
            net_faces: self.net_faces@,
            new_face_keys: self.new_face_keys@,
        }
    }
}

/// The end of an icon edge that is not `v` (the first end if neither is).
pub open spec fn icon_other_endpoint(edge: IconEdgeView, v: u64) -> Option<u64> {
    if edge.vertex_a != v {
        Some(edge.vertex_a)
    } else if edge.vertex_b != v {
        Some(edge.vertex_b)
    } else {
        None
    }
}

impl IconShapesView {
    pub open spec fn with_vertex(self, v: u64, d: IconVertexView) -> Self {
        IconShapesView { vertices: self.vertices.insert(v, d), ..self }
    }

    pub open spec fn with_edge(self, e: u64, d: IconEdgeView) -> Self {
        IconShapesView { edges: self.edges.insert(e, d), ..self }
    }

    /// The vertex `v` with edge `e` added, when `v` is registered.
    pub open spec fn vertex_edge_added(self, v: u64, e: u64) -> Self {
        if self.vertices.contains_key(v) {
            self.with_vertex(v, IconVertexView { edges: self.vertices[v].edges.insert(e), ..self.vertices[v] })
        } else {
            self
        }
    }

    pub open spec fn vertex_edge_removed(self, v: u64, e: u64) -> Self {
        if self.vertices.contains_key(v) {
            self.with_vertex(v, IconVertexView { edges: self.vertices[v].edges.remove(e), ..self.vertices[v] })
        } else {
            self
        }
    }

    pub open spec fn vertex_face_added(self, v: u64, k: FaceKey) -> Self {
        if self.vertices.contains_key(v) {
            self.with_vertex(v, IconVertexView { faces: self.vertices[v].faces.insert(k), ..self.vertices[v] })
        } else {
            self
        }
    }

    pub open spec fn vertex_face_removed(self, v: u64, k: FaceKey) -> Self {
        if self.vertices.contains_key(v) {
            self.with_vertex(v, IconVertexView { faces: self.vertices[v].faces.remove(k), ..self.vertices[v] })
        } else {
            self
        }
    }

    pub open spec fn edge_face_added(self, e: u64, k: FaceKey) -> Self {
        self.with_edge(e, IconEdgeView { faces: self.edges[e].faces.insert(k), ..self.edges[e] })
    }

    pub open spec fn edge_face_removed(self, e: u64, k: FaceKey) -> Self {
        self.with_edge(e, IconEdgeView { faces: self.edges[e].faces.remove(k), ..self.edges[e] })
    }

    /// All edges touching `v` are registered.
    pub open spec fn knows_edges_of(self, v: u64) -> bool {
        forall|e: u64| #[trigger] self.vertices[v].edges.contains(e) ==> self.edges.contains_key(e)
    }

    /// The vertices joined to `v` by one of its edges.
    pub open spec fn connected(self, v: u64) -> Set<u64> {
        Set::new(|w: u64| exists|e: u64| #[trigger] self.vertices[v].edges.contains(e) && icon_other_endpoint(self.edges[e], v) == Some(w))
    }

    /// The triangles closed by an edge between `a` and `b`.
    pub open spec fn closed_triangles(self, a: u64, b: u64) -> Set<FaceKey> {
        Set::new(|k: FaceKey| exists|c: u64| #[trigger] self.connected(a).contains(c) && self.connected(b).contains(c)
            && k == face_key_of(a, b, c))
    }

    pub open spec fn has_local_face(self, k: FaceKey) -> bool {
        self.face_keys.contains_key(k) && self.face_keys[k] is Some
    }

    pub open spec fn data(self, k: FaceKey) -> IconFaceData {
        self.face_keys[k].unwrap()
    }

    /// The one edge that two registered vertices share, when they share
    /// exactly one.
    pub open spec fn sole_common_edge(self, x: u64, y: u64) -> u64 {
        choose|e: u64| self.vertices[x].edges.intersect(self.vertices[y].edges) == set![e]
    }

    /// The shapes once the local face `local_entity` of the triangle `k`, in
    /// the given file and frame, was recorded at the triangle's three
    /// vertices, at the edge joining each pair of them, and with the triangle.
    pub open spec fn local_face_registered(self, file_entity: u64, frame_entity: u64, k: FaceKey, local_entity: u64) -> Self {
        let e_ab = self.sole_common_edge(k.vertex_3d_a, k.vertex_3d_b);
        let e_bc = self.sole_common_edge(k.vertex_3d_b, k.vertex_3d_c);
        let e_ca = self.sole_common_edge(k.vertex_3d_c, k.vertex_3d_a);
        let with_faces = self.vertex_face_added(k.vertex_3d_a, k).vertex_face_added(k.vertex_3d_b, k).vertex_face_added(
            k.vertex_3d_c,
            k,
        ).edge_face_added(e_ab, k).edge_face_added(e_bc, k).edge_face_added(e_ca, k);
        IconShapesView {
            face_keys: self.face_keys.insert(
                k,
                Some(IconFaceData { file_entity, frame_entity, local_entity, net_entity: None, edge_a: e_ab, edge_b: e_bc, edge_c: e_ca }),
            ),
            local_faces: self.local_faces.insert(local_entity, k),
            ..with_faces
        }
    }

    /// The two registered vertices share exactly one edge, and it is
    /// registered.
    pub open spec fn shares_one_edge(self, x: u64, y: u64) -> bool {
        &&& self.vertices.contains_key(x)
        &&& self.vertices.contains_key(y)
        &&& exists|e: u64| self.vertices[x].edges.intersect(self.vertices[y].edges) == set![e]
        &&& self.edges.contains_key(self.sole_common_edge(x, y))
    }
}

/// `new` is `old` after the triangles `candidates` were looked at: those not
/// known yet are recorded (without a local face) and queued, once each, with
/// `file` and `frame`; nothing else changes.
pub open spec fn icon_faces_checked(old: IconShapesView, new: IconShapesView, candidates: Set<FaceKey>, file: u64, frame: u64) -> bool {
    let added = new.new_face_keys.skip(old.new_face_keys.len() as int);
    &&& new.vertices == old.vertices
    &&& new.edges == old.edges
    &&& new.local_faces == old.local_faces
    &&& new.net_faces == old.net_faces
    &&& forall|k: FaceKey| #[trigger] new.face_keys.contains_key(k) <==> (old.face_keys.contains_key(k) || candidates.contains(k))
    &&& forall|k: FaceKey| #[trigger] old.face_keys.contains_key(k) ==> new.face_keys[k] == old.face_keys[k]
    &&& forall|k: FaceKey| !old.face_keys.contains_key(k) && #[trigger] candidates.contains(k) ==> new.face_keys[k] is None
    &&& new.new_face_keys.len() >= old.new_face_keys.len()
    &&& new.new_face_keys.take(old.new_face_keys.len() as int) == old.new_face_keys
    &&& added.no_duplicates()
    &&& forall|entry: (FaceKey, u64, u64)| #[trigger] added.contains(entry) <==> (entry.1 == file && entry.2 == frame
        && candidates.contains(entry.0) && !old.face_keys.contains_key(entry.0))
}

impl IconShapes {
    pub closed spec fn wf(&self) -> bool {
        &&& forall|v: u64| #[trigger] self.vertices@.contains_key(v) ==> self.vertices@[v].wf()
        &&& forall|e: u64| #[trigger] self.edges@.contains_key(e) ==> self.edges@[e].wf()
        &&& self.face_keys.wf()
    }

    pub fn new() -> (s: Self)
        ensures
            s.wf(),
            s@.vertices == Map::<u64, IconVertexView>::empty(),
            s@.edges == Map::<u64, IconEdgeView>::empty(),
            s@.face_keys == Map::<FaceKey, Option<IconFaceData>>::empty(),
            s@.local_faces == Map::<u64, FaceKey>::empty(),
            s@.net_faces == Map::<u64, FaceKey>::empty(),
            s@.new_face_keys == Seq::<(FaceKey, u64, u64)>::empty(),
    {
        let s = IconShapes {
            vertices: HashMap::new(),
            edges: HashMap::new(),
            face_keys: FaceMap::new(),
            local_faces: HashMap::new(),
            net_faces: HashMap::new(),
            new_face_keys: Vec::new(),
        };
        assert(s@.vertices =~= Map::<u64, IconVertexView>::empty());
        assert(s@.edges =~= Map::<u64, IconEdgeView>::empty());
        s
    }

    // ------------------------------------------------------------ vertices

    pub fn has_vertex_entity(&self, entity: u64) -> (r: bool)
        ensures
            r == self@.vertices.contains_key(entity),
    {
        self.vertices.contains_key(&entity)
    }

    /// Registers a vertex of the given frame, with no edges or faces.
    pub fn register_vertex(&mut self, frame_entity_opt: Option<u64>, vertex_entity: u64)
        requires
            old(self).wf(),
        ensures
            final(self).wf(),
            final(self)@ == old(self)@.with_vertex(vertex_entity, IconVertexView::fresh(frame_entity_opt)),
    {
        let ghost before = self@;
        self.vertices.insert(vertex_entity, IconVertexData::new(frame_entity_opt));
        assert(self@.vertices =~= before.vertices.insert(vertex_entity, IconVertexView::fresh(frame_entity_opt)));
    }

    pub fn unregister_vertex(&mut self, vertex_entity: u64)
        requires
            old(self).wf(),
        ensures
            final(self).wf(),
            final(self)@ == (IconShapesView { vertices: old(self)@.vertices.remove(vertex_entity), ..old(self)@ }),
    {
        let ghost before = self@;
        self.vertices.remove(&vertex_entity);
        assert(self@.vertices =~= before.vertices.remove(vertex_entity));
    }

    /// The frame of a registered vertex; every registered vertex here has one.
    pub fn vertex_get_frame_entity(&self, vertex_entity: u64) -> (r: Option<u64>)
        requires
            self@.vertices.contains_key(vertex_entity) ==> self@.vertices[vertex_entity].frame is Some,
        ensures
            r == (if self@.vertices.contains_key(vertex_entity) { self@.vertices[vertex_entity].frame } else { None }),
    {
        match self.vertices.get(&vertex_entity) {
            Some(d) => Some(d.frame_entity_opt.unwrap()),
            None => None,
        }
    }

    /// The edges touching a vertex, if it is registered.
    pub fn vertex_get_edges(&self, vertex_entity: u64) -> (r: Option<&IdSet>)
        ensures
            match r {
                Some(s) => self@.vertices.contains_key(vertex_entity) && s@ == self@.vertices[vertex_entity].edges,
                None => !self@.vertices.contains_key(vertex_entity),
            },
    {
        match self.vertices.get(&vertex_entity) {
            Some(d) => Some(&d.edges),
            None => None,
        }
    }

    /// The faces touching a vertex, if it is registered.
    pub fn vertex_get_faces(&self, vertex_entity: u64) -> (r: Option<Vec<FaceKey>>)
        requires
            self.wf(),
        ensures
            match r {
                Some(v) => self@.vertices.contains_key(vertex_entity) && v@.to_set() == self@.vertices[vertex_entity].faces
                    && v@.no_duplicates(),
                None => !self@.vertices.contains_key(vertex_entity),
            },
    {
        match self.vertices.get(&vertex_entity) {
            Some(d) => {
                let v = d.faces.key_list();
                proof {
                    d.faces.lemma_keys();
                    assert(v@.to_set() =~= self@.vertices[vertex_entity].faces);
                }
                Some(v)
            },
            None => None,
        }
    }

    /// Records that edge `edge_entity` touches the registered vertex.
    pub fn vertex_add_edge(&mut self, vertex_entity: u64, edge_entity: u64)
        requires
            old(self).wf(),
            old(self)@.vertices.contains_key(vertex_entity),
        ensures
            final(self).wf(),
            final(self)@ == old(self)@.vertex_edge_added(vertex_entity, edge_entity),
    {
        let ghost before = self@;
        let mut d = self.vertices.remove(&vertex_entity).unwrap();
        d.add_edge(edge_entity);
        self.vertices.insert(vertex_entity, d);
        assert(self@.vertices =~= before.vertex_edge_added(vertex_entity, edge_entity).vertices);
    }

    /// Forgets that edge `edge_entity` touches the vertex (which may be gone).
    pub fn vertex_remove_edge(&mut self, vertex_entity: u64, edge_entity: u64)
        requires
            old(self).wf(),
        ensures
            final(self).wf(),
            final(self)@ == old(self)@.vertex_edge_removed(vertex_entity, edge_entity),
    {
        let ghost before = self@;
        match self.vertices.remove(&vertex_entity) {
            Some(mut d) => {
                d.remove_edge(edge_entity);
                self.vertices.insert(vertex_entity, d);
                assert(self@.vertices =~= before.vertex_edge_removed(vertex_entity, edge_entity).vertices);
            },
            None => {
                assert(self@.vertices =~= before.vertices);
            },
        }
    }

    /// Records that face `key` touches the vertex (which may be gone).
    pub fn vertex_add_face(&mut self, vertex_entity: u64, key: FaceKey)
        requires
            old(self).wf(),
        ensures
            final(self).wf(),
            final(self)@ == old(self)@.vertex_face_added(vertex_entity, key),
    {
        let ghost before = self@;
        match self.vertices.remove(&vertex_entity) {
            Some(mut d) => {
                d.add_face(key);
                self.vertices.insert(vertex_entity, d);
                assert(self@.vertices =~= before.vertex_face_added(vertex_entity, key).vertices);
            },
            None => {
                assert(self@.vertices =~= before.vertices);
            },
        }
    }

    /// Forgets that face `key` touches the vertex (which may be gone).
    pub fn vertex_remove_face(&mut self, vertex_entity: u64, key: &FaceKey)
        requires
            old(self).wf(),
        ensures
            final(self).wf(),
            final(self)@ == old(self)@.vertex_face_removed(vertex_entity, *key),
    {
        let ghost before = self@;
        match self.vertices.remove(&vertex_entity) {
            Some(mut d) => {
                d.remove_face(key);
                self.vertices.insert(vertex_entity, d);
                assert(self@.vertices =~= before.vertex_face_removed(vertex_entity, *key).vertices);
            },
            None => {
                assert(self@.vertices =~= before.vertices);
            },
        }
    }

    // ------------------------------------------------------------ edges

    pub fn has_edge_entity(&self, edge_entity: u64) -> (r: bool)
        ensures
            r == self@.edges.contains_key(edge_entity),
    {
        self.edges.contains_key(&edge_entity)
    }

    /// The frame of a registered edge; every registered edge here has one.
    pub fn edge_get_frame_entity(&self, edge_entity: u64) -> (r: Option<u64>)
        requires
            self@.edges.contains_key(edge_entity) ==> self@.edges[edge_entity].frame is Some,
        ensures
            r == (if self@.edges.contains_key(edge_entity) { self@.edges[edge_entity].frame } else { None }),
    {
        match self.edges.get(&edge_entity) {
            Some(d) => Some(d.frame_entity_opt.unwrap()),
            None => None,
        }
    }

    /// The two vertices of a registered edge.
    pub fn edge_get_endpoints(&self, edge_entity: u64) -> (r: (u64, u64))
        requires
            self@.edges.contains_key(edge_entity),
        ensures
            r == (self@.edges[edge_entity].vertex_a, self@.edges[edge_entity].vertex_b),
    {
        let d = self.edges.get(&edge_entity).unwrap();
        (d.vertex_entity_a, d.vertex_entity_b)
    }

    /// The faces bordering an edge, if it is registered.
    pub fn edge_connected_faces(&self, edge_entity: u64) -> (r: Option<Vec<FaceKey>>)
        requires
            self.wf(),
        ensures
            match r {
                Some(v) => self@.edges.contains_key(edge_entity) && v@.to_set() == self@.edges[edge_entity].faces
                    && v@.no_duplicates(),
                None => !self@.edges.contains_key(edge_entity),
            },
    {
        match self.edges.get(&edge_entity) {
            Some(d) => {
                let v = d.faces.key_list();
                proof {
                    d.faces.lemma_keys();
                    assert(v@.to_set() =~= self@.edges[edge_entity].faces);
                }
                Some(v)
            },
            None => None,
        }
    }

    /// Records that face `key` borders the registered edge.
    pub fn edge_add_face(&mut self, edge_entity: u64, key: FaceKey)
        requires
            old(self).wf(),
            old(self)@.edges.contains_key(edge_entity),
        ensures
            final(self).wf(),
            final(self)@ == old(self)@.edge_face_added(edge_entity, key),
    {
        let ghost before = self@;
        let mut d = self.edges.remove(&edge_entity).unwrap();
        d.add_face(key);
        self.edges.insert(edge_entity, d);
        assert(self@.edges =~= before.edge_face_added(edge_entity, key).edges);
    }

    /// Forgets that face `key` borders the registered edge.
    pub fn edge_remove_face(&mut self, edge_entity: u64, key: &FaceKey)
        requires
            old(self).wf(),
            old(self)@.edges.contains_key(edge_entity),
        ensures
            final(self).wf(),
            final(self)@ == old(self)@.edge_face_removed(edge_entity, *key),
    {
        let ghost before = self@;
        let mut d = self.edges.remove(&edge_entity).unwrap();
        d.remove_face(key);
        self.edges.insert(edge_entity, d);
        assert(self@.edges =~= before.edge_face_removed(edge_entity, *key).edges);
    }

    /// Forgets an edge and its place at its vertices.
    pub fn unregister_edge(&mut self, edge_entity: u64)
        requires
            old(self).wf(),
        ensures
            final(self).wf(),
            final(self)@ == if old(self)@.edges.contains_key(edge_entity) {
                let d = old(self)@.edges[edge_entity];
                IconShapesView { edges: old(self)@.edges.remove(edge_entity), ..old(self)@ }
                    .vertex_edge_removed(d.vertex_a, edge_entity).vertex_edge_removed(d.vertex_b, edge_entity)
            } else {
                old(self)@
            },
    {
        let ghost before = self@;
        match self.edges.remove(&edge_entity) {
            Some(d) => {
                assert(self@.edges =~= before.edges.remove(edge_entity));
                self.vertex_remove_edge(d.vertex_entity_a, edge_entity);
                self.vertex_remove_edge(d.vertex_entity_b, edge_entity);
            },
            None => {
                assert(self@.edges =~= before.edges);
            },
        }
    }

    /// An edge joining the two vertices, if they share one.
    pub fn edge_entity_from_vertices(&self, vertex_a: u64, vertex_b: u64) -> (r: Option<u64>)
        ensures
            match r {
                Some(e) => {
                    &&& self@.vertices.contains_key(vertex_a)
                    &&& self@.vertices.contains_key(vertex_b)
                    &&& self@.vertices[vertex_a].edges.contains(e)
                    &&& self@.vertices[vertex_b].edges.contains(e)
                },
                None => !self@.vertices.contains_key(vertex_a) || !self@.vertices.contains_key(vertex_b)
                    || self@.vertices[vertex_a].edges.disjoint(self@.vertices[vertex_b].edges),
            },
    {
        let a_edges = self.vertex_get_edges(vertex_a);
        let b_edges = self.vertex_get_edges(vertex_b);
        match (a_edges, b_edges) {
            (Some(a), Some(b)) => {
                let common = a.intersection(b);
                let r = common.first();
                proof {
                    if r is None {
                        assert forall|e: u64| a@.contains(e) implies !b@.contains(e) by {
                            if b@.contains(e) {
                                assert(common@.contains(e));
                            }
                        }
                    }
                }
                r
            },
            _ => None,
        }
    }
    // ------------------------------------------------------------ graph

    /// The vertices joined to a registered vertex by one of its (registered)
    /// edges.
    pub fn get_connected_vertices(&self, vertex_entity: u64) -> (r: IdSet)
        requires
            self@.vertices.contains_key(vertex_entity),
            self@.knows_edges_of(vertex_entity),
        ensures
            r@ == self@.connected(vertex_entity),
    {
        let edges = self.vertex_get_edges(vertex_entity).unwrap();
        let mut set = IdSet::new();
        proof {
            edges.lemma_elements();
        }
        let mut i: usize = 0;
        while i < edges.len()
            invariant
                i <= edges.elements().len(),
                edges@ == self@.vertices[vertex_entity].edges,
                edges.elements().to_set() == edges@,
                self@.knows_edges_of(vertex_entity),
                forall|w: u64| set@.contains(w) <==> exists|j: int| 0 <= j < i
                    && icon_other_endpoint(self@.edges[#[trigger] edges.elements()[j]], vertex_entity) == Some(w),
            decreases edges.elements().len() - i,
        {
            let e = edges.get(i);
            proof {
                assert(edges.elements().contains(e));
            }
            let (a, b) = self.edge_get_endpoints(e);
            if a != vertex_entity {
                set.insert(a);
            } else if b != vertex_entity {
                set.insert(b);
            }
            proof {
                assert forall|w: u64| set@.contains(w) <==> exists|j: int| 0 <= j < i + 1
                    && icon_other_endpoint(self@.edges[#[trigger] edges.elements()[j]], vertex_entity) == Some(w) by {
                    if set@.contains(w) && !(exists|j: int| 0 <= j < i
                        && icon_other_endpoint(self@.edges[#[trigger] edges.elements()[j]], vertex_entity) == Some(w)) {
                        assert(icon_other_endpoint(self@.edges[edges.elements()[i as int]], vertex_entity) == Some(w));
                    }
                }
            }
            i = i + 1;
        }
        proof {
            assert(set@ =~= self@.connected(vertex_entity)) by {
                assert forall|w: u64| set@.contains(w) <==> self@.connected(vertex_entity).contains(w) by {
                    if set@.contains(w) {
                        let j = choose|j: int| 0 <= j < edges.elements().len()
                            && icon_other_endpoint(self@.edges[#[trigger] edges.elements()[j]], vertex_entity) == Some(w);
                        assert(self@.vertices[vertex_entity].edges.contains(edges.elements()[j]));
                    }
                    if self@.connected(vertex_entity).contains(w) {
                        let e = choose|e: u64| #[trigger] self@.vertices[vertex_entity].edges.contains(e)
                            && icon_other_endpoint(self@.edges[e], vertex_entity) == Some(w);
                        assert(edges.elements().contains(e));
                        let j = choose|j: int| 0 <= j < edges.elements().len() && edges.elements()[j] == e;
                        assert(icon_other_endpoint(self@.edges[edges.elements()[j]], vertex_entity) == Some(w));
                    }
                }
            }
        }
        set
    }

    /// Records and queues, with `file_entity` and `frame_entity`, every
    /// triangle closed by the edge between the registered vertices
    /// `vertex_a` and `vertex_b` that is not known yet.
    pub fn check_for_new_faces(&mut self, file_entity: u64, frame_entity: u64, vertex_a: u64, vertex_b: u64)
        requires
            old(self).wf(),
            old(self)@.vertices.contains_key(vertex_a),
            old(self)@.vertices.contains_key(vertex_b),
            old(self)@.knows_edges_of(vertex_a),
            old(self)@.knows_edges_of(vertex_b),
        ensures
            final(self).wf(),
            icon_faces_checked(old(self)@, final(self)@, old(self)@.closed_triangles(vertex_a, vertex_b), file_entity, frame_entity),
    {
        let ghost old_view = self@;
        let ghost candidates = old_view.closed_triangles(vertex_a, vertex_b);
        let ghost start_len = self.new_face_keys@.len();
        let conn_a = self.get_connected_vertices(vertex_a);
        let conn_b = self.get_connected_vertices(vertex_b);
        let common = conn_a.intersection(&conn_b);
        proof {
            common.lemma_elements();
        }
        let mut i: usize = 0;
        while i < common.len()
            invariant
                self.wf(),
                i <= common.elements().len(),
                common@ == conn_a@.intersect(conn_b@),
                common.elements().to_set() == common@,
                conn_a@ == old_view.connected(vertex_a),
                conn_b@ == old_view.connected(vertex_b),
                self@.vertices == old_view.vertices,
                self@.edges == old_view.edges,
                self@.local_faces == old_view.local_faces,
                self@.net_faces == old_view.net_faces,
                forall|k: FaceKey| #[trigger] self@.face_keys.contains_key(k) <==> (old_view.face_keys.contains_key(k)
                    || exists|j: int| 0 <= j < i && k == face_key_of(vertex_a, vertex_b, #[trigger] common.elements()[j])),
                forall|k: FaceKey| #[trigger] old_view.face_keys.contains_key(k) ==> self@.face_keys[k] == old_view.face_keys[k],
                forall|k: FaceKey| !old_view.face_keys.contains_key(k) && #[trigger] self@.face_keys.contains_key(k) ==> self@.face_keys[k] is None,
                self@.new_face_keys.len() >= start_len,
                start_len == old_view.new_face_keys.len(),
                self@.new_face_keys.take(start_len as int) == old_view.new_face_keys,
                self@.new_face_keys.skip(start_len as int).no_duplicates(),
                forall|entry: (FaceKey, u64, u64)| #[trigger] self@.new_face_keys.skip(start_len as int).contains(entry) <==> (entry.1
                    == file_entity && entry.2 == frame_entity && self@.face_keys.contains_key(entry.0)
                    && !old_view.face_keys.contains_key(entry.0)),
            decreases common.elements().len() - i,
        {
            let c = common.get(i);
            let key = FaceKey::new(vertex_a, vertex_b, c);
            let ghost before = self@;
            if !self.face_keys.contains_key(&key) {
                self.face_keys.insert(key, None);
                self.new_face_keys.push((key, file_entity, frame_entity));
                proof {
                    let added_before = before.new_face_keys.skip(start_len as int);
                    let added = self@.new_face_keys.skip(start_len as int);
                    let item = (key, file_entity, frame_entity);
                    assert(added =~= added_before.push(item));
                    assert(self@.new_face_keys.take(start_len as int) =~= before.new_face_keys.take(start_len as int));
                    assert(!added_before.contains(item));
                    assert forall|entry: (FaceKey, u64, u64)| #[trigger] added.contains(entry) <==> (entry.1 == file_entity
                        && entry.2 == frame_entity && self@.face_keys.contains_key(entry.0)
                        && !old_view.face_keys.contains_key(entry.0)) by {
                        if added.contains(entry) && entry != item {
                            let k = choose|k: int| 0 <= k < added.len() && added[k] == entry;
                            assert(added_before[k] == entry);
                            assert(added_before.contains(entry));
                        }
                        if entry.1 == file_entity && entry.2 == frame_entity && self@.face_keys.contains_key(entry.0)
                            && !old_view.face_keys.contains_key(entry.0) && entry != item {
                            assert(entry.0 != key);
                            assert(added_before.contains(entry));
                            let k = choose|k: int| 0 <= k < added_before.len() && added_before[k] == entry;
                            assert(added[k] == entry);
                        }
                        if entry == item {
                            assert(added[added.len() - 1] == entry);
                        }
                    }
                }
            }
            proof {
                assert forall|k: FaceKey| #[trigger] self@.face_keys.contains_key(k) <==> (old_view.face_keys.contains_key(k)
                    || exists|j: int| 0 <= j < i + 1 && k == face_key_of(vertex_a, vertex_b, #[trigger] common.elements()[j])) by {
                    if k == key {
                        assert(k == face_key_of(vertex_a, vertex_b, common.elements()[i as int]));
                    }
                    if exists|j: int| 0 <= j < i + 1 && k == face_key_of(vertex_a, vertex_b, #[trigger] common.elements()[j]) {
                        let j = choose|j: int| 0 <= j < i + 1 && k == face_key_of(vertex_a, vertex_b, #[trigger] common.elements()[j]);
                        if j == i {
                            assert(k == key);
                        }
                    }
                }
            }
            i = i + 1;
        }
        proof {
            assert forall|k: FaceKey| (exists|j: int| 0 <= j < common.elements().len() && k == face_key_of(vertex_a, vertex_b, #[trigger] common.elements()[j]))
                <==> #[trigger] candidates.contains(k) by {
                if exists|j: int| 0 <= j < common.elements().len() && k == face_key_of(vertex_a, vertex_b, #[trigger] common.elements()[j]) {
                    let j = choose|j: int| 0 <= j < common.elements().len() && k == face_key_of(vertex_a, vertex_b, #[trigger] common.elements()[j]);
                    let c = common.elements()[j];
                    assert(common.elements().contains(c));
                    assert(conn_a@.contains(c) && conn_b@.contains(c));
                }
                if candidates.contains(k) {
                    let c = choose|c: u64| #[trigger] old_view.connected(vertex_a).contains(c)
                        && old_view.connected(vertex_b).contains(c) && k == face_key_of(vertex_a, vertex_b, c);
                    assert(common@.contains(c));
                    assert(common.elements().contains(c));
                    let j = choose|j: int| 0 <= j < common.elements().len() && common.elements()[j] == c;
                }
            }
            assert forall|k: FaceKey| #[trigger] self@.face_keys.contains_key(k) <==> (old_view.face_keys.contains_key(k)
                || candidates.contains(k)) by {
                if candidates.contains(k) {
                    assert(exists|j: int| 0 <= j < common.elements().len() && k == face_key_of(vertex_a, vertex_b, #[trigger] common.elements()[j]));
                }
            }
            assert forall|k: FaceKey| !old_view.face_keys.contains_key(k) && #[trigger] candidates.contains(k) implies self@.face_keys[k] is None by {
                assert(self@.face_keys.contains_key(k));
            }
            let added = self@.new_face_keys.skip(start_len as int);
            assert forall|entry: (FaceKey, u64, u64)| #[trigger] added.contains(entry) <==> (entry.1 == file_entity && entry.2 == frame_entity
                && candidates.contains(entry.0) && !old_view.face_keys.contains_key(entry.0)) by {
                if candidates.contains(entry.0) {
                    assert(self@.face_keys.contains_key(entry.0));
                }
                if self@.face_keys.contains_key(entry.0) && !old_view.face_keys.contains_key(entry.0) {
                    assert(candidates.contains(entry.0));
                }
            }
        }
    }
    /// Registers the edge `edge_entity` of the given frame between the
    /// registered vertices `vertex_a` and `vertex_b`. When the edge belongs to
    /// a file (its frame is then known), the triangles it closes are recorded
    /// and queued as new faces.
    pub fn register_edge(
        &mut self,
        file_entity_opt: Option<u64>,
        frame_entity_opt: Option<u64>,
        edge_entity: u64,
        vertex_a: u64,
        vertex_b: u64,
    )
        requires
            old(self).wf(),
            old(self)@.vertices.contains_key(vertex_a),
            old(self)@.vertices.contains_key(vertex_b),
            file_entity_opt is Some ==> frame_entity_opt is Some,
            file_entity_opt is Some ==> forall|e: u64| #[trigger] old(self)@.vertices[vertex_a].edges.contains(e)
                || old(self)@.vertices[vertex_b].edges.contains(e) ==> e == edge_entity || old(self)@.edges.contains_key(e),
        ensures
            final(self).wf(),
            ({
                let mid = old(self)@.vertex_edge_added(vertex_a, edge_entity).vertex_edge_added(vertex_b, edge_entity).with_edge(
                    edge_entity,
                    IconEdgeView { frame: frame_entity_opt, vertex_a, vertex_b, faces: Set::empty() },
                );
                match file_entity_opt {
                    Some(file) => icon_faces_checked(mid, final(self)@, mid.closed_triangles(vertex_a, vertex_b), file, frame_entity_opt->0),
                    None => final(self)@ == mid,
                }
            }),
    {
        let ghost vm0 = self@;
        self.vertex_add_edge(vertex_a, edge_entity);
        self.vertex_add_edge(vertex_b, edge_entity);
        let ghost before = self@;
        self.edges.insert(edge_entity, IconEdgeData::new(frame_entity_opt, vertex_a, vertex_b));
        assert(self@.edges =~= before.edges.insert(
            edge_entity,
            IconEdgeView { frame: frame_entity_opt, vertex_a, vertex_b, faces: Set::empty() },
        ));
        if let Some(file_entity) = file_entity_opt {
            let frame_entity = frame_entity_opt.unwrap();
            assert forall|e: u64| #[trigger] self@.vertices[vertex_a].edges.contains(e) implies self@.edges.contains_key(e) by {
                if e != edge_entity {
                    assert(vm0.vertices[vertex_a].edges.contains(e) || vm0.vertices[vertex_b].edges.contains(e));
                }
            }
            assert forall|e: u64| #[trigger] self@.vertices[vertex_b].edges.contains(e) implies self@.edges.contains_key(e) by {
                if e != edge_entity {
                    assert(vm0.vertices[vertex_a].edges.contains(e) || vm0.vertices[vertex_b].edges.contains(e));
                }
            }
            self.check_for_new_faces(file_entity, frame_entity, vertex_a, vertex_b);
        }
    }

    fn common_edge(&self, x: u64, y: u64) -> (e: u64)
        requires
            self@.vertices.contains_key(x),
            self@.vertices.contains_key(y),
            exists|e: u64| self@.vertices[x].edges.intersect(self@.vertices[y].edges) == set![e],
        ensures
            e == self@.sole_common_edge(x, y),
    {
        let xs = self.vertex_get_edges(x).unwrap();
        let ys = self.vertex_get_edges(y).unwrap();
        let common = xs.intersection(ys);
        let e = common.first().unwrap();
        proof {
            let s = choose|s: u64| self@.vertices[x].edges.intersect(self@.vertices[y].edges) == set![s];
            assert(common@ == set![s]);
            assert(common@.contains(e));
            assert(e == s);
        }
        e
    }

    // ------------------------------------------------------------ faces

    /// Takes the queue of new triangles, leaving it empty.
    pub fn take_new_face_keys(&mut self) -> (keys: Vec<(FaceKey, u64, u64)>)
        requires
            old(self).wf(),
        ensures
            final(self).wf(),
            keys@ == old(self)@.new_face_keys,
            final(self)@ == (IconShapesView { new_face_keys: Seq::empty(), ..old(self)@ }),
    {
        let mut keys = Vec::new();
        std::mem::swap(&mut keys, &mut self.new_face_keys);
        keys
    }

    /// Drops a triangle from the queue of new ones.
    pub fn remove_new_face_key(&mut self, key: &FaceKey)
        requires
            old(self).wf(),
        ensures
            final(self).wf(),
            final(self)@ == (IconShapesView {
                new_face_keys: old(self)@.new_face_keys.filter(|e: (FaceKey, u64, u64)| e.0 != *key),
                ..old(self)@
            }),
    {
        let ghost pred = |e: (FaceKey, u64, u64)| e.0 != *key;
        let mut kept: Vec<(FaceKey, u64, u64)> = Vec::new();
        let mut i: usize = 0;
        while i < self.new_face_keys.len()
            invariant
                i <= self.new_face_keys@.len(),
                kept@ == self.new_face_keys@.subrange(0, i as int).filter(pred),
                pred == (|e: (FaceKey, u64, u64)| e.0 != *key),
            decreases self.new_face_keys@.len() - i,
        {
            let e = self.new_face_keys[i];
            proof {
                assert(self.new_face_keys@.subrange(0, i + 1).drop_last() == self.new_face_keys@.subrange(0, i as int));
                reveal_with_fuel(Seq::filter, 1);
            }
            if e.0 != *key {
                kept.push(e);
            }
            i = i + 1;
        }
        assert(self.new_face_keys@.subrange(0, self.new_face_keys@.len() as int) == self.new_face_keys@);
        self.new_face_keys = kept;
    }

    /// Registers the local face `local_entity` of the triangle `key` (which
    /// has none yet) in the given file and frame: the face is recorded at its
    /// three vertices and at the three edges joining them, one for each side.
    pub fn register_local_face(&mut self, file_entity: u64, frame_entity: u64, key: &FaceKey, local_entity: u64)
        requires
            old(self).wf(),
            !old(self)@.has_local_face(*key),
            old(self)@.shares_one_edge(key.vertex_3d_a, key.vertex_3d_b),
            old(self)@.shares_one_edge(key.vertex_3d_b, key.vertex_3d_c),
            old(self)@.shares_one_edge(key.vertex_3d_c, key.vertex_3d_a),
        ensures
            final(self).wf(),
            final(self)@ == old(self)@.local_face_registered(file_entity, frame_entity, *key, local_entity),
    {
        let a = key.vertex_3d_a;
        let b = key.vertex_3d_b;
        let c = key.vertex_3d_c;
        let e_ab = self.common_edge(a, b);
        let e_bc = self.common_edge(b, c);
        let e_ca = self.common_edge(c, a);
        self.vertex_add_face(a, *key);
        self.vertex_add_face(b, *key);
        self.vertex_add_face(c, *key);
        self.edge_add_face(e_ab, *key);
        self.edge_add_face(e_bc, *key);
        self.edge_add_face(e_ca, *key);
        self.face_keys.insert(*key, Some(IconFaceData::new(file_entity, frame_entity, local_entity, e_ab, e_bc, e_ca)));
        self.local_faces.insert(local_entity, *key);
    }

    /// Records `net_entity` as the networked face of the triangle `key`,
    /// which has its local face.
    pub fn register_net_face(&mut self, net_entity: u64, key: &FaceKey)
        requires
            old(self).wf(),
            old(self)@.has_local_face(*key),
        ensures
            final(self).wf(),
            final(self)@ == (IconShapesView {
                net_faces: old(self)@.net_faces.insert(net_entity, *key),
                face_keys: old(self)@.face_keys.insert(*key, Some(IconFaceData { net_entity: Some(net_entity), ..old(self)@.data(*key) })),
                ..old(self)@
            }),
    {
        self.net_faces.insert(net_entity, *key);
        let mut d = self.face_keys.get(key).unwrap().unwrap();
        d.net_entity = Some(net_entity);
        self.face_keys.insert(*key, Some(d));
    }

    pub fn has_local_face(&self, key: &FaceKey) -> (r: bool)
        requires
            self.wf(),
        ensures
            r == self@.has_local_face(*key),
    {
        match self.face_keys.get(key) {
            Some(Some(_)) => true,
            _ => false,
        }
    }

    pub fn local_face_entity_from_face_key(&self, key: &FaceKey) -> (r: Option<u64>)
        requires
            self.wf(),
        ensures
            r == (if self@.has_local_face(*key) { Some(self@.data(*key).local_entity) } else { None }),
    {
        match self.face_keys.get(key) {
            Some(Some(d)) => Some(d.local_entity),
            _ => None,
        }
    }

    pub fn net_face_entity_from_face_key(&self, key: &FaceKey) -> (r: Option<u64>)
        requires
            self.wf(),
        ensures
            r == (if self@.has_local_face(*key) { self@.data(*key).net_entity } else { None }),
    {
        match self.face_keys.get(key) {
            Some(Some(d)) => d.net_entity,
            _ => None,
        }
    }

    pub fn face_key_from_local_entity(&self, local_entity: u64) -> (r: Option<FaceKey>)
        ensures
            r == (if self@.local_faces.contains_key(local_entity) { Some(self@.local_faces[local_entity]) } else { None }),
    {
        match self.local_faces.get(&local_entity) {
            Some(k) => Some(*k),
            None => None,
        }
    }

    /// The networked face of a local face, if it has one.
    pub fn face_entity_local_to_net(&self, local_entity: u64) -> (r: Option<u64>)
        requires
            self.wf(),
        ensures
            r == (if self@.local_faces.contains_key(local_entity) && self@.has_local_face(self@.local_faces[local_entity]) {
                self@.data(self@.local_faces[local_entity]).net_entity
            } else {
                None
            }),
    {
        match self.local_faces.get(&local_entity) {
            Some(k) => self.net_face_entity_from_face_key(k),
            None => None,
        }
    }

    /// The local face of a networked face, if it has one.
    pub fn face_entity_net_to_local(&self, net_entity: u64) -> (r: Option<u64>)
        requires
            self.wf(),
        ensures
            r == (if self@.net_faces.contains_key(net_entity) && self@.has_local_face(self@.net_faces[net_entity]) {
                Some(self@.data(self@.net_faces[net_entity]).local_entity)
            } else {
                None
            }),
    {
        match self.net_faces.get(&net_entity) {
            Some(k) => self.local_face_entity_from_face_key(k),
            None => None,
        }
    }

    /// The frame of a local face, if it is known.
    pub fn face_get_frame_entity(&self, local_entity: u64) -> (r: Option<u64>)
        requires
            self.wf(),
        ensures
            r == (if self@.local_faces.contains_key(local_entity) && self@.has_local_face(self@.local_faces[local_entity]) {
                Some(self@.data(self@.local_faces[local_entity]).frame_entity)
            } else {
                None
            }),
    {
        match self.local_faces.get(&local_entity) {
            Some(k) => match self.face_keys.get(k) {
                Some(Some(d)) => Some(d.frame_entity),
                _ => None,
            },
            None => None,
        }
    }

    /// Forgets the triangle `key`: its local face and its place at its
    /// vertices and edges (which must be registered). Returns the local face
    /// when it had one.
    pub fn unregister_face_key(&mut self, key: &FaceKey) -> (r: Option<u64>)
        requires
            old(self).wf(),
            old(self)@.has_local_face(*key) ==> {
                let d = old(self)@.data(*key);
                &&& old(self)@.edges.contains_key(d.edge_a)
                &&& old(self)@.edges.contains_key(d.edge_b)
                &&& old(self)@.edges.contains_key(d.edge_c)
            },
        ensures
            final(self).wf(),
            ({
                let k = *key;
                let s = old(self)@;
                let removed = IconShapesView { face_keys: s.face_keys.remove(k), ..s };
                if s.has_local_face(k) {
                    let d = s.data(k);
                    &&& r == Some(d.local_entity)
                    &&& final(self)@ == IconShapesView { local_faces: removed.local_faces.remove(d.local_entity), ..removed }
                        .vertex_face_removed(k.vertex_3d_a, k).vertex_face_removed(k.vertex_3d_b, k).vertex_face_removed(
                        k.vertex_3d_c,
                        k,
                    ).edge_face_removed(d.edge_a, k).edge_face_removed(d.edge_b, k).edge_face_removed(d.edge_c, k)
                } else {
                    &&& r is None
                    &&& final(self)@ == removed
                }
            }),
    {
        let removed = self.face_keys.remove(key);
        match removed {
            Some(Some(d)) => {
                self.local_faces.remove(&d.local_entity);
                self.vertex_remove_face(key.vertex_3d_a, key);
                self.vertex_remove_face(key.vertex_3d_b, key);
                self.vertex_remove_face(key.vertex_3d_c, key);
                self.edge_remove_face(d.edge_a, key);
                self.edge_remove_face(d.edge_b, key);
                self.edge_remove_face(d.edge_c, key);
                Some(d.local_entity)
            },
            _ => None,
        }
    }

    /// Forgets the registered networked face `net_entity`: its triangle keeps
    /// its local face, which is returned (where the triangle still has one).
    pub fn unregister_net_face(&mut self, net_entity: u64) -> (r: Option<u64>)
        requires
            old(self).wf(),
            old(self)@.net_faces.contains_key(net_entity),
        ensures
            final(self).wf(),
            ({
                let s = old(self)@;
                let k = s.net_faces[net_entity];
                let removed = IconShapesView { net_faces: s.net_faces.remove(net_entity), ..s };
                if s.has_local_face(k) {
                    &&& r == Some(s.data(k).local_entity)
                    &&& final(self)@ == IconShapesView {
                        face_keys: s.face_keys.insert(k, Some(IconFaceData { net_entity: None, ..s.data(k) })),
                        ..removed
                    }
                } else {
                    &&& r is None
                    &&& final(self)@ == removed
                }
            }),
    {
        let key = self.net_faces.remove(&net_entity).unwrap();
        match self.face_keys.get(&key) {
            Some(Some(d)) => {
                let mut d2 = *d;
                d2.net_entity = None;
                self.face_keys.insert(key, Some(d2));
                Some(d2.local_entity)
            },
            _ => None,
        }
    }
}

/// The shapes after the triangle `k`, which has its local face, is
/// forgotten: at its vertices, at its edges, and with its local face.
pub open spec fn icon_key_unregistered(s: IconShapesView, k: FaceKey) -> IconShapesView {
    let d = s.data(k);
    let removed = IconShapesView { face_keys: s.face_keys.remove(k), ..s };
    IconShapesView { local_faces: removed.local_faces.remove(d.local_entity), ..removed }
        .vertex_face_removed(k.vertex_3d_a, k).vertex_face_removed(k.vertex_3d_b, k).vertex_face_removed(k.vertex_3d_c, k)
        .edge_face_removed(d.edge_a, k).edge_face_removed(d.edge_b, k).edge_face_removed(d.edge_c, k)
}

/// The shapes after the triangles `ks` are forgotten, in order.
pub open spec fn icon_keys_unregistered(s: IconShapesView, ks: Seq<FaceKey>) -> IconShapesView
    decreases ks.len(),
{
    if ks.len() == 0 {
        s
    } else {
        icon_key_unregistered(icon_keys_unregistered(s, ks.drop_last()), ks.last())
    }
}

/// A triangle that can be forgotten: it has its local face, and its edges
/// are registered.
pub open spec fn icon_removable_face(s: IconShapesView, k: FaceKey) -> bool {
    &&& s.has_local_face(k)
    &&& s.edges.contains_key(s.data(k).edge_a)
    &&& s.edges.contains_key(s.data(k).edge_b)
    &&& s.edges.contains_key(s.data(k).edge_c)
}

/// The hover after the local faces `faces` and the edge `edge` are gone.
pub open spec fn icon_hover_after(h: Option<(u64, CanvasShape)>, faces: Seq<u64>, edge: u64) -> Option<(u64, CanvasShape)> {
    match h {
        Some((x, CanvasShape::Face)) => if faces.contains(x) { None } else { h },
        Some((x, CanvasShape::Edge)) => if x == edge { None } else { h },
        _ => h,
    }
}

/// Making the local face of a triangle that has none, and then forgetting the
/// triangle, gives back the shapes as they were, but for the triangle, which
/// is no longer known at all.
pub proof fn lemma_register_then_unregister_local_face(
    s: IconShapesView,
    file_entity: u64,
    frame_entity: u64,
    k: FaceKey,
    local_entity: u64,
)
    requires
        !s.has_local_face(k),
        !s.local_faces.contains_key(local_entity),
        s.shares_one_edge(k.vertex_3d_a, k.vertex_3d_b),
        s.shares_one_edge(k.vertex_3d_b, k.vertex_3d_c),
        s.shares_one_edge(k.vertex_3d_c, k.vertex_3d_a),
        !s.vertices[k.vertex_3d_a].faces.contains(k),
        !s.vertices[k.vertex_3d_b].faces.contains(k),
        !s.vertices[k.vertex_3d_c].faces.contains(k),
        !s.edges[s.sole_common_edge(k.vertex_3d_a, k.vertex_3d_b)].faces.contains(k),
        !s.edges[s.sole_common_edge(k.vertex_3d_b, k.vertex_3d_c)].faces.contains(k),
        !s.edges[s.sole_common_edge(k.vertex_3d_c, k.vertex_3d_a)].faces.contains(k),
    ensures
        icon_key_unregistered(s.local_face_registered(file_entity, frame_entity, k, local_entity), k)
            == (IconShapesView { face_keys: s.face_keys.remove(k), ..s }),
{
    let s1 = s.local_face_registered(file_entity, frame_entity, k, local_entity);
    let s2 = icon_key_unregistered(s1, k);
    let (a, b, c) = (k.vertex_3d_a, k.vertex_3d_b, k.vertex_3d_c);
    let ab = s.sole_common_edge(a, b);
    let bc = s.sole_common_edge(b, c);
    let ca = s.sole_common_edge(c, a);
    assert forall|v: u64| #[trigger] s2.vertices.contains_key(v) <==> s.vertices.contains_key(v) by {}
    assert forall|v: u64| s.vertices.contains_key(v) implies #[trigger] s2.vertices[v] == s.vertices[v] by {
        if v == a || v == b || v == c {
            assert(s2.vertices[v].faces =~= s.vertices[v].faces);
        }
    }
    assert(s2.vertices =~= s.vertices);
    assert forall|e: u64| #[trigger] s2.edges.contains_key(e) <==> s.edges.contains_key(e) by {}
    assert forall|e: u64| s.edges.contains_key(e) implies #[trigger] s2.edges[e] == s.edges[e] by {
        if e == ab || e == bc || e == ca {
            assert(s2.edges[e].faces =~= s.edges[e].faces);
        }
    }
    assert(s2.edges =~= s.edges);
    assert(s2.face_keys =~= s.face_keys.remove(k));
    assert(s2.local_faces =~= s.local_faces);
}

} // verus!
