use vstd::prelude::*;
use crate::face_map::FaceMap;
use crate::id_set::IdSet;
use crate::shape_data::FaceKey;

verus! {

/// The three vertices of an icon triangle, in ascending order of their
/// entities' bit representations.
pub type IconFaceKey = FaceKey;

/// The registry data of an icon vertex: its frame, and the edges and faces
/// that touch it.
pub struct IconVertexData {
    pub frame_entity_opt: Option<u64>,
    pub edges: IdSet,
    pub faces: FaceMap<()>,
}

pub struct IconVertexView {
    pub frame: Option<u64>,
    pub edges: Set<u64>,
    pub faces: Set<FaceKey>,
}

impl View for IconVertexData {
    type V = IconVertexView;

    open spec fn view(&self) -> IconVertexView {
        IconVertexView { frame: self.frame_entity_opt, edges: self.edges@, faces: self.faces@.dom() }
    }
}

impl IconVertexView {
    pub open spec fn fresh(frame: Option<u64>) -> Self {
        IconVertexView { frame, edges: Set::empty(), faces: Set::empty() }
    }
}

impl IconVertexData {
    pub open spec fn wf(&self) -> bool {
        self.faces.wf()
    }

    pub fn new(frame_entity_opt: Option<u64>) -> (d: Self)
        ensures
            d.wf(),
            d@ == IconVertexView::fresh(frame_entity_opt),
    {
        let d = IconVertexData { frame_entity_opt, edges: IdSet::new(), faces: FaceMap::new() };
        assert(d@.faces =~= Set::<FaceKey>::empty());
        d
    }

    pub fn add_edge(&mut self, edge_entity: u64)
        requires
            old(self).wf(),
        ensures
            final(self).wf(),
            final(self)@ == (IconVertexView { edges: old(self)@.edges.insert(edge_entity), ..old(self)@ }),
    {
        self.edges.insert(edge_entity);
    }

    pub fn remove_edge(&mut self, edge_entity: u64)
        requires
            old(self).wf(),
        ensures
            final(self).wf(),
            final(self)@ == (IconVertexView { edges: old(self)@.edges.remove(edge_entity), ..old(self)@ }),
    {
        self.edges.remove(edge_entity);
    }

    pub fn add_face(&mut self, face_key: FaceKey)
        requires
            old(self).wf(),
        ensures
            final(self).wf(),
            final(self)@ == (IconVertexView { faces: old(self)@.faces.insert(face_key), ..old(self)@ }),
    {
        self.faces.insert(face_key, ());
        assert(self@.faces =~= old(self)@.faces.insert(face_key));
    }

    pub fn remove_face(&mut self, face_key: &FaceKey)
        requires
            old(self).wf(),
        ensures
            final(self).wf(),
            final(self)@ == (IconVertexView { faces: old(self)@.faces.remove(*face_key), ..old(self)@ }),
    {
        self.faces.remove(face_key);
        assert(self@.faces =~= old(self)@.faces.remove(*face_key));
    }
}

/// The registry data of an icon edge: its frame, its two vertices and the
/// faces it borders.
pub struct IconEdgeData {
    pub frame_entity_opt: Option<u64>,
    pub vertex_entity_a: u64,
    pub vertex_entity_b: u64,
    pub faces: FaceMap<()>,
}

pub struct IconEdgeView {
    pub frame: Option<u64>,
    pub vertex_a: u64,
    pub vertex_b: u64,
    pub faces: Set<FaceKey>,
}

impl View for IconEdgeData {
    type V = IconEdgeView;

    open spec fn view(&self) -> IconEdgeView {
        IconEdgeView {
            frame: self.frame_entity_opt,
            vertex_a: self.vertex_entity_a,
            vertex_b: self.vertex_entity_b,
            faces: self.faces@.dom(),
        }
    }
}

impl IconEdgeData {
    pub open spec fn wf(&self) -> bool {
        self.faces.wf()
    }

    pub fn new(frame_entity_opt: Option<u64>, vertex_entity_a: u64, vertex_entity_b: u64) -> (d: Self)
        ensures
            d.wf(),
            d@ == (IconEdgeView { frame: frame_entity_opt, vertex_a: vertex_entity_a, vertex_b: vertex_entity_b, faces: Set::empty() }),
    {
        let d = IconEdgeData { frame_entity_opt, vertex_entity_a, vertex_entity_b, faces: FaceMap::new() };
        assert(d@.faces =~= Set::<FaceKey>::empty());
        d
    }

    pub fn add_face(&mut self, face_key: FaceKey)
        requires
            old(self).wf(),
        ensures
            final(self).wf(),
            final(self)@ == (IconEdgeView { faces: old(self)@.faces.insert(face_key), ..old(self)@ }),
    {
        self.faces.insert(face_key, ());
        assert(self@.faces =~= old(self)@.faces.insert(face_key));
    }

    pub fn remove_face(&mut self, face_key: &FaceKey)
        requires
            old(self).wf(),
        ensures
            final(self).wf(),
            final(self)@ == (IconEdgeView { faces: old(self)@.faces.remove(*face_key), ..old(self)@ }),
    {
        self.faces.remove(face_key);
        assert(self@.faces =~= old(self)@.faces.remove(*face_key));
    }
}

/// The registry data of an icon face: its file and frame, its local (2d)
/// entity, its networked entity once there is one, and its three edges.
#[derive(Clone, Copy, PartialEq, Eq, Structural, Debug)]
pub struct IconFaceData {
    pub file_entity: u64,
    pub frame_entity: u64,
    pub local_entity: u64,
    pub net_entity: Option<u64>,
    pub edge_a: u64,
    pub edge_b: u64,
    pub edge_c: u64,
}

impl IconFaceData {
    pub fn new(file_entity: u64, frame_entity: u64, local_entity: u64, edge_a: u64, edge_b: u64, edge_c: u64) -> (d: Self)
        ensures
            d == (IconFaceData { file_entity, frame_entity, local_entity, net_entity: None, edge_a, edge_b, edge_c }),
    {
        IconFaceData { file_entity, frame_entity, local_entity, net_entity: None, edge_a, edge_b, edge_c }
    }
}

} // verus!
