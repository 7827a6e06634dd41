use vstd::prelude::*;

use crate::face_map::FaceMap;
use crate::id_set::IdSet;

verus! {

/// The kind of a shape drawn on the 2d canvas.
#[derive(Clone, Copy, PartialEq, Eq, Structural, Debug)]
pub enum CanvasShape {
    RootVertex,
    Vertex,
    Edge,
    Face,
}

/// The three 3d vertices of a triangular face, kept in ascending order of the
/// vertex entities' bit representations (the order in which entities compare).
#[derive(Clone, Copy, PartialEq, Eq, Structural, Debug)]
pub struct FaceKey {
    pub vertex_3d_a: u64,
    pub vertex_3d_b: u64,
    pub vertex_3d_c: u64,
}

impl FaceKey {
    /// The key is sorted ascending.
    pub open spec fn is_sorted(self) -> bool {
        self.vertex_3d_a <= self.vertex_3d_b <= self.vertex_3d_c
    }

    /// The key's three vertices are `a`, `b` and `c` in some order.
    pub open spec fn holds_vertices(self, a: u64, b: u64, c: u64) -> bool {
        let (x, y, z) = (self.vertex_3d_a, self.vertex_3d_b, self.vertex_3d_c);
        ||| (x, y, z) == (a, b, c)
        ||| (x, y, z) == (a, c, b)
        ||| (x, y, z) == (b, a, c)
        ||| (x, y, z) == (b, c, a)
        ||| (x, y, z) == (c, a, b)
        ||| (x, y, z) == (c, b, a)
    }

    /// Builds the key of the face with the given three vertices, in any order.
    pub fn new(vertex_a: u64, vertex_b: u64, vertex_c: u64) -> (key: FaceKey)
        ensures
            key.is_sorted(),
            key.holds_vertices(vertex_a, vertex_b, vertex_c),
            key == face_key_of(vertex_a, vertex_b, vertex_c),
    {
        let (mut a, mut b, mut c) = (vertex_a, vertex_b, vertex_c);
        if b < a {
            let t = a;
            a = b;
            b = t;
        }
        if c < b {
            let t = b;
            b = c;
            c = t;
        }
        if b < a {
            let t = a;
            a = b;
            b = t;
        }
        let key = FaceKey { vertex_3d_a: a, vertex_3d_b: b, vertex_3d_c: c };
        proof {
            lemma_face_key_of(vertex_a, vertex_b, vertex_c, key);
        }
        key
    }
}

/// The key of the face with vertices `a`, `b` and `c`: the one sorted
/// arrangement of them.
pub open spec fn face_key_of(a: u64, b: u64, c: u64) -> FaceKey {
    choose|k: FaceKey| k.is_sorted() && k.holds_vertices(a, b, c)
}

/// Any sorted arrangement of `a`, `b`, `c` is their face key.
pub proof fn lemma_face_key_of(a: u64, b: u64, c: u64, k: FaceKey)
    requires
        k.is_sorted(),
        k.holds_vertices(a, b, c),
    ensures
        face_key_of(a, b, c) == k,
        face_key_of(a, b, c) == face_key_of(b, a, c),
        face_key_of(a, b, c) == face_key_of(a, c, b),
        face_key_of(a, b, c) == face_key_of(c, b, a),
{
    let f = face_key_of(a, b, c);
    assert(f.is_sorted() && f.holds_vertices(a, b, c));
    lemma_face_key_order_independent(f, k, a, b, c);
    assert(k.holds_vertices(b, a, c));
    assert(k.holds_vertices(a, c, b));
    assert(k.holds_vertices(c, b, a));
    let f2 = face_key_of(b, a, c);
    assert(f2.is_sorted() && f2.holds_vertices(b, a, c));
    lemma_face_key_order_independent(f2, k, b, a, c);
    let f3 = face_key_of(a, c, b);
    assert(f3.is_sorted() && f3.holds_vertices(a, c, b));
    lemma_face_key_order_independent(f3, k, a, c, b);
    let f4 = face_key_of(c, b, a);
    assert(f4.is_sorted() && f4.holds_vertices(c, b, a));
    lemma_face_key_order_independent(f4, k, c, b, a);
}

/// A face's key does not depend on the order in which its three vertices are
/// given: two sorted keys over the same three vertices are the same key.
pub proof fn lemma_face_key_order_independent(k1: FaceKey, k2: FaceKey, a: u64, b: u64, c: u64)
    requires
        k1.is_sorted(),
        k2.is_sorted(),
        k1.holds_vertices(a, b, c),
        k2.holds_vertices(a, b, c),
    ensures
        k1 == k2,
{
}

/// The registry data of a 3d vertex: its 2d entity, and the 3d edges and
/// faces that touch it.
pub struct Vertex3dData {
    pub entity_2d: u64,
    pub edges_3d: IdSet,
    pub faces_3d: FaceMap<()>,
}

/// The abstract value of a vertex's registry data.
pub struct Vertex3dView {
    pub entity_2d: u64,
    pub edges: Set<u64>,
    pub faces: Set<FaceKey>,
}

impl View for Vertex3dData {
    type V = Vertex3dView;

    open spec fn view(&self) -> Vertex3dView {
        Vertex3dView { entity_2d: self.entity_2d, edges: self.edges_3d@, faces: self.faces_3d@.dom() }
    }
}

impl Vertex3dView {
    pub open spec fn fresh(entity_2d: u64) -> Self {
        Vertex3dView { entity_2d, edges: Set::empty(), faces: Set::empty() }
    }
}

impl Vertex3dData {
    pub open spec fn wf(&self) -> bool {
        self.faces_3d.wf()
    }

    pub fn new(entity_2d: u64) -> (d: Self)
        ensures
            d.wf(),
            d@ == Vertex3dView::fresh(entity_2d),
    {
        let d = Vertex3dData { entity_2d, edges_3d: IdSet::new(), faces_3d: FaceMap::new() };
        assert(d@.faces =~= Set::<FaceKey>::empty());
        d
    }

    pub fn add_edge(&mut self, edge_3d_entity: u64)
        ensures
            final(self).wf() == old(self).wf(),
            final(self)@ == (Vertex3dView { edges: old(self)@.edges.insert(edge_3d_entity), ..old(self)@ }),
    {
        self.edges_3d.insert(edge_3d_entity);
    }

    pub fn remove_edge(&mut self, edge_3d_entity: u64)
        ensures
            final(self).wf() == old(self).wf(),
            final(self)@ == (Vertex3dView { edges: old(self)@.edges.remove(edge_3d_entity), ..old(self)@ }),
    {
        self.edges_3d.remove(edge_3d_entity);
    }

    pub fn add_face(&mut self, face_key: FaceKey)
        requires
            old(self).wf(),
        ensures
            final(self).wf(),
            final(self)@ == (Vertex3dView { faces: old(self)@.faces.insert(face_key), ..old(self)@ }),
    {
        self.faces_3d.insert(face_key, ());
        assert(self@.faces =~= old(self)@.faces.insert(face_key));
    }

    pub fn remove_face(&mut self, face_key: &FaceKey)
        requires
            old(self).wf(),
        ensures
            final(self).wf(),
            final(self)@ == (Vertex3dView { faces: old(self)@.faces.remove(*face_key), ..old(self)@ }),
    {
        self.faces_3d.remove(face_key);
        assert(self@.faces =~= old(self)@.faces.remove(*face_key));
    }
}

/// The registry data of a 3d edge: its 2d entity, its two 3d vertices, the
/// faces it borders and, for skeleton edges, the entities that draw its angle
/// (base circle, line, end circle).
pub struct Edge3dData {
    pub entity_2d: u64,
    pub vertex_a_3d_entity: u64,
    pub vertex_b_3d_entity: u64,
    pub faces_3d: FaceMap<()>,
    pub angle_entities_opt: Option<(u64, u64, u64)>,
}

/// The abstract value of an edge's registry data.
pub struct Edge3dView {
    pub entity_2d: u64,
    pub vertex_a: u64,
    pub vertex_b: u64,
    pub faces: Set<FaceKey>,
    pub angle_entities: Option<(u64, u64, u64)>,
}

impl View for Edge3dData {
    type V = Edge3dView;

    open spec fn view(&self) -> Edge3dView {
        Edge3dView {
            entity_2d: self.entity_2d,
            vertex_a: self.vertex_a_3d_entity,
            vertex_b: self.vertex_b_3d_entity,
            faces: self.faces_3d@.dom(),
            angle_entities: self.angle_entities_opt,
        }
    }
}

impl Edge3dData {
    pub open spec fn wf(&self) -> bool {
        self.faces_3d.wf()
    }

    pub fn new(entity_2d: u64, vertex_a_3d_entity: u64, vertex_b_3d_entity: u64, angle_entities_opt: Option<(u64, u64, u64)>) -> (d: Self)
        ensures
            d.wf(),
            d@ == (Edge3dView {
                entity_2d,
                vertex_a: vertex_a_3d_entity,
                vertex_b: vertex_b_3d_entity,
                faces: Set::empty(),
                angle_entities: angle_entities_opt,
            }),
    {
        let d = Edge3dData { entity_2d, vertex_a_3d_entity, vertex_b_3d_entity, faces_3d: FaceMap::new(), angle_entities_opt };
        assert(d@.faces =~= Set::<FaceKey>::empty());
        d
    }

    pub fn add_face(&mut self, face_key: FaceKey)
        requires
            old(self).wf(),
        ensures
            final(self).wf(),
            final(self)@ == (Edge3dView { faces: old(self)@.faces.insert(face_key), ..old(self)@ }),
    {
        self.faces_3d.insert(face_key, ());
        assert(self@.faces =~= old(self)@.faces.insert(face_key));
    }

    pub fn remove_face(&mut self, face_key: &FaceKey)
        requires
            old(self).wf(),
        ensures
            final(self).wf(),
            final(self)@ == (Edge3dView { faces: old(self)@.faces.remove(*face_key), ..old(self)@ }),
    {
        self.faces_3d.remove(face_key);
        assert(self@.faces =~= old(self)@.faces.remove(*face_key));
    }
}

/// The registry data of a face: its 2d entity, its 3d entity once the face
/// was made into a networked 3d face, its file and its three 3d edges.
#[derive(Clone, Copy, PartialEq, Eq, Structural, Debug)]
pub struct FaceData {
    pub entity_3d: Option<u64>,
    pub entity_2d: u64,
    pub file_entity: u64,
    pub edge_3d_a: u64,
    pub edge_3d_b: u64,
    pub edge_3d_c: u64,
}

impl FaceData {
    pub fn new(entity_2d: u64, file_entity: u64, edge_3d_a: u64, edge_3d_b: u64, edge_3d_c: u64) -> (d: Self)
        ensures
            d == (FaceData { entity_3d: None, entity_2d, file_entity, edge_3d_a, edge_3d_b, edge_3d_c }),
    {
        FaceData { entity_3d: None, entity_2d, file_entity, edge_3d_a, edge_3d_b, edge_3d_c }
    }
}

} // verus!
