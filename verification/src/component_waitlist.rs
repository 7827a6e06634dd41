use vstd::prelude::*;
use std::collections::HashMap;
use crate::canvas::Canvas;
use crate::dependency_map::{DependencyMap, released, kept, lemma_split_len, lemma_split_keeps, pairs_view};
use crate::file_ext::FileExtension;
use crate::icon_manager::{IconManager, IconManagerView};
use crate::id_set::IdSet;
use crate::shape_data::{face_key_of, FaceKey};
use crate::shape_graph::{EdgeManager, EdgeManagerView, VertexManager, VertexManagerView};

verus! {

broadcast use vstd::std_specs::hash::group_hash_axioms;

/// What kind of shape a networked entity turns out to be.
#[derive(Clone, Copy, PartialEq, Eq, Structural, Debug)]
pub enum ComponentType {
    Vertex,
    Edge,
    Face,
    NetTransform,
}

/// What a networked transform belongs to.
#[derive(Clone, Copy, PartialEq, Eq, Structural, Debug)]
pub enum NetTransformEntityType {
    Skin,
    Scene,
}

/// One component of a networked shape, as it arrives. `A` is the type of an
/// edge angle.
pub enum ComponentWaitlistInsert<A> {
    FileType(FileExtension),
    OwnedByFile(u64),
    Vertex,
    VertexRoot,
    /// start vertex, end vertex
    Edge(u64, u64),
    /// vertices a, b, c, edges a, b, c
    Face(u64, u64, u64, u64, u64, u64),
    EdgeAngle(A),
    NetTransform,
    SkinOrSceneEntity(u64, NetTransformEntityType),
    ShapeName(String),
}

/// A complete shape, ready to be set up.
pub enum ComponentData<A> {
    /// the parent vertex, for a skeleton vertex that is not the root
    Vertex(Option<u64>),
    Edge(u64, u64, Option<A>),
    Face(u64, u64, u64, u64, u64, u64),
    /// the shape name, for a model transform
    NetTransform(Option<String>),
}

impl<A> ComponentData<A> {
    pub open spec fn spec_to_type(&self) -> ComponentType {
        match self {
            ComponentData::Vertex(_) => ComponentType::Vertex,
            ComponentData::Edge(_, _, _) => ComponentType::Edge,
            ComponentData::Face(_, _, _, _, _, _) => ComponentType::Face,
            ComponentData::NetTransform(_) => ComponentType::NetTransform,
        }
    }

    pub fn to_type(&self) -> (t: ComponentType)
        ensures
            t == self.spec_to_type(),
    {
        match self {
            ComponentData::Vertex(_) => ComponentType::Vertex,
            ComponentData::Edge(_, _, _) => ComponentType::Edge,
            ComponentData::Face(_, _, _, _, _, _) => ComponentType::Face,
            ComponentData::NetTransform(_) => ComponentType::NetTransform,
        }
    }
}

/// The components of one entity that have arrived so far.
pub struct ComponentWaitlistEntry<A> {
    component_type: Option<ComponentType>,
    file_type: Option<FileExtension>,
    file_entity: Option<u64>,
    vertex_parent: Option<Option<u64>>,
    edge_entities: Option<(u64, u64)>,
    edge_angle: Option<A>,
    face_entities: Option<(u64, u64, u64, u64, u64, u64)>,
    skin_or_scene_entity: Option<(u64, NetTransformEntityType)>,
    shape_name: Option<String>,
}

pub struct EntryView<A> {
    pub component_type: Option<ComponentType>,
    pub file_type: Option<FileExtension>,
    pub file_entity: Option<u64>,
    pub vertex_parent: Option<Option<u64>>,
    pub edge_entities: Option<(u64, u64)>,
    pub edge_angle: Option<A>,
    pub face_entities: Option<(u64, u64, u64, u64, u64, u64)>,
    pub skin_or_scene_entity: Option<(u64, NetTransformEntityType)>,
    pub shape_name: Option<String>,
}

impl<A> View for ComponentWaitlistEntry<A> {
    type V = EntryView<A>;

    closed spec fn view(&self) -> EntryView<A> {
        EntryView {
            component_type: self.component_type,
            file_type: self.file_type,
            file_entity: self.file_entity,
            vertex_parent: self.vertex_parent,
            edge_entities: self.edge_entities,
            edge_angle: self.edge_angle,
            face_entities: self.face_entities,
            skin_or_scene_entity: self.skin_or_scene_entity,
            shape_name: self.shape_name,
        }
    }
}

/// An entry with nothing known yet.
pub open spec fn empty_entry<A>() -> EntryView<A> {
    EntryView {
        component_type: None,
        file_type: None,
        file_entity: None,
        vertex_parent: None,
        edge_entities: None,
        edge_angle: None,
        face_entities: None,
        skin_or_scene_entity: None,
        shape_name: None,
    }
}

/// `e` as a vertex with the given parent.
pub open spec fn with_parent<A>(e: EntryView<A>, parent: Option<u64>) -> EntryView<A> {
    EntryView { component_type: Some(ComponentType::Vertex), vertex_parent: Some(parent), ..e }
}

/// The entry of an entity after one more of its components arrived.
pub open spec fn entry_after<A>(e: EntryView<A>, insert: ComponentWaitlistInsert<A>) -> EntryView<A> {
    match insert {
        ComponentWaitlistInsert::FileType(t) => EntryView { file_type: Some(t), ..e },
        ComponentWaitlistInsert::OwnedByFile(f) => EntryView { file_entity: Some(f), ..e },
        ComponentWaitlistInsert::Vertex => EntryView { component_type: Some(ComponentType::Vertex), ..e },
        ComponentWaitlistInsert::VertexRoot => with_parent(e, None),
        ComponentWaitlistInsert::Edge(start, end) => EntryView {
            component_type: Some(ComponentType::Edge),
            edge_entities: Some((start, end)),
            ..e
        },
        ComponentWaitlistInsert::Face(va, vb, vc, ea, eb, ec) => EntryView {
            component_type: Some(ComponentType::Face),
            face_entities: Some((va, vb, vc, ea, eb, ec)),
            file_type: Some(FileExtension::Mesh),
            ..e
        },
        ComponentWaitlistInsert::EdgeAngle(angle) => EntryView { edge_angle: Some(angle), ..e },
        ComponentWaitlistInsert::NetTransform => EntryView { component_type: Some(ComponentType::NetTransform), ..e },
        ComponentWaitlistInsert::SkinOrSceneEntity(entity, t) => EntryView { skin_or_scene_entity: Some((entity, t)), ..e },
        ComponentWaitlistInsert::ShapeName(name) => EntryView { shape_name: Some(name), ..e },
    }
}

/// Whether all the components that the entry's kind of shape needs have
/// arrived; `None` where the kind of shape does not go with the file type.
pub open spec fn ready_outcome<A>(e: EntryView<A>) -> Option<bool> {
    match e.component_type {
        Some(ComponentType::Vertex) => match e.file_type {
            None => Some(false),
            Some(FileExtension::Skel) => Some(e.file_entity is Some && e.vertex_parent is Some),
            Some(FileExtension::Mesh) => Some(e.file_entity is Some),
            Some(_) => None,
        },
        Some(ComponentType::Edge) => match e.file_type {
            None => Some(false),
            Some(FileExtension::Skel) => Some(e.file_entity is Some && e.edge_entities is Some && e.edge_angle is Some),
            Some(FileExtension::Mesh) => Some(e.file_entity is Some && e.edge_entities is Some),
            Some(_) => None,
        },
        Some(ComponentType::Face) => Some(e.file_type is Some && e.file_entity is Some && e.face_entities is Some),
        Some(ComponentType::NetTransform) => match e.file_type {
            None => Some(false),
            Some(FileExtension::Model) => Some(
                e.file_entity is Some && e.skin_or_scene_entity is Some && e.shape_name is Some,
            ),
            Some(FileExtension::Scene) => Some(e.file_entity is Some && e.skin_or_scene_entity is Some),
            Some(_) => None,
        },
        None => Some(false),
    }
}

/// An entry is complete only once every component its shape needs has
/// arrived: the file it belongs to and its type; a skeleton vertex's parent;
/// an edge's two vertices and, in a skeleton, its angle; a face's vertices
/// and edges; a transform's skin or scene entity and, in a model, the name of
/// the shape it is bound to. And once they have all arrived, it is complete.
pub proof fn lemma_ready_exactly_when_components_arrived<A>(e: EntryView<A>)
    ensures
        ready_outcome(e) == Some(true) ==> e.component_type is Some && e.file_type is Some && e.file_entity is Some,
        ready_outcome(e) == Some(true) && e.component_type == Some(ComponentType::Vertex) && e.file_type == Some(FileExtension::Skel)
            ==> e.vertex_parent is Some,
        ready_outcome(e) == Some(true) && e.component_type == Some(ComponentType::Edge) ==> e.edge_entities is Some,
        ready_outcome(e) == Some(true) && e.component_type == Some(ComponentType::Edge) && e.file_type == Some(FileExtension::Skel)
            ==> e.edge_angle is Some,
        ready_outcome(e) == Some(true) && e.component_type == Some(ComponentType::Face) ==> e.face_entities is Some,
        ready_outcome(e) == Some(true) && e.component_type == Some(ComponentType::NetTransform) ==> e.skin_or_scene_entity is Some,
        ready_outcome(e) == Some(true) && e.component_type == Some(ComponentType::NetTransform) && e.file_type == Some(FileExtension::Model)
            ==> e.shape_name is Some,
        e.file_entity is Some && e.component_type == Some(ComponentType::Vertex) && e.file_type == Some(FileExtension::Mesh)
            ==> ready_outcome(e) == Some(true),
        e.file_entity is Some && e.component_type == Some(ComponentType::Vertex) && e.file_type == Some(FileExtension::Skel)
            && e.vertex_parent is Some ==> ready_outcome(e) == Some(true),
        e.file_entity is Some && e.component_type == Some(ComponentType::Edge) && e.file_type == Some(FileExtension::Mesh)
            && e.edge_entities is Some ==> ready_outcome(e) == Some(true),
        e.file_entity is Some && e.component_type == Some(ComponentType::Edge) && e.file_type == Some(FileExtension::Skel)
            && e.edge_entities is Some && e.edge_angle is Some ==> ready_outcome(e) == Some(true),
        e.file_entity is Some && e.component_type == Some(ComponentType::Face) && e.file_type is Some
            && e.face_entities is Some ==> ready_outcome(e) == Some(true),
        e.file_entity is Some && e.component_type == Some(ComponentType::NetTransform) && e.file_type == Some(FileExtension::Scene)
            && e.skin_or_scene_entity is Some ==> ready_outcome(e) == Some(true),
        e.file_entity is Some && e.component_type == Some(ComponentType::NetTransform) && e.file_type == Some(FileExtension::Model)
            && e.skin_or_scene_entity is Some && e.shape_name is Some ==> ready_outcome(e) == Some(true),
{
}

/// Whether a complete entry can be set up: its kind of shape goes with its
/// file type and everything that the set-up reads is there.
pub open spec fn decomposable<A>(e: EntryView<A>) -> bool {
    &&& e.file_entity is Some
    &&& match (e.component_type, e.file_type) {
        (Some(ComponentType::Vertex), Some(FileExtension::Skel)) => e.vertex_parent is Some,
        (Some(ComponentType::Vertex), Some(FileExtension::Mesh)) => true,
        (Some(ComponentType::Edge), Some(FileExtension::Mesh)) => e.edge_entities is Some,
        (Some(ComponentType::Edge), Some(FileExtension::Skel)) => e.edge_entities is Some && e.edge_angle is Some,
        (Some(ComponentType::Face), Some(_)) => e.face_entities is Some,
        (Some(ComponentType::NetTransform), Some(FileExtension::Model)) => e.shape_name is Some,
        (Some(ComponentType::NetTransform), Some(FileExtension::Scene)) => true,
        _ => false,
    }
}

/// The shape that a complete entry describes, with its file entity and file
/// type.
pub open spec fn decomposed<A>(e: EntryView<A>) -> (ComponentData<A>, u64, FileExtension) {
    let data = match (e.component_type, e.file_type) {
        (Some(ComponentType::Vertex), Some(FileExtension::Skel)) => ComponentData::Vertex(e.vertex_parent->0),
        (Some(ComponentType::Vertex), _) => ComponentData::Vertex(None),
        (Some(ComponentType::Edge), Some(FileExtension::Mesh)) => {
            let (a, b) = e.edge_entities->0;
            ComponentData::Edge(a, b, None)
        },
        (Some(ComponentType::Edge), _) => {
            let (a, b) = e.edge_entities->0;
            ComponentData::Edge(a, b, Some(e.edge_angle->0))
        },
        (Some(ComponentType::Face), _) => {
            let f = e.face_entities->0;
            ComponentData::Face(f.0, f.1, f.2, f.3, f.4, f.5)
        },
        (_, Some(FileExtension::Model)) => ComponentData::NetTransform(Some(e.shape_name->0)),
        _ => ComponentData::NetTransform(None),
    };
    (data, e.file_entity->0, e.file_type->0)
}

impl<A> ComponentWaitlistEntry<A> {
    pub fn new() -> (e: Self)
        ensures
            e@ == empty_entry::<A>(),
    {
        ComponentWaitlistEntry {
            component_type: None,
            file_type: None,
            file_entity: None,
            vertex_parent: None,
            edge_entities: None,
            edge_angle: None,
            face_entities: None,
            skin_or_scene_entity: None,
            shape_name: None,
        }
    }

    /// Records one more component.
    pub fn apply(&mut self, insert: ComponentWaitlistInsert<A>)
        ensures
            final(self)@ == entry_after(old(self)@, insert),
    {
        match insert {
            ComponentWaitlistInsert::FileType(t) => self.file_type = Some(t),
            ComponentWaitlistInsert::OwnedByFile(f) => self.file_entity = Some(f),
            ComponentWaitlistInsert::Vertex => self.component_type = Some(ComponentType::Vertex),
            ComponentWaitlistInsert::VertexRoot => self.set_parent(None),
            ComponentWaitlistInsert::Edge(start, end) => {
                self.component_type = Some(ComponentType::Edge);
                self.edge_entities = Some((start, end));
            },
            ComponentWaitlistInsert::Face(va, vb, vc, ea, eb, ec) => {
                self.component_type = Some(ComponentType::Face);
                self.face_entities = Some((va, vb, vc, ea, eb, ec));
                self.file_type = Some(FileExtension::Mesh);
            },
            ComponentWaitlistInsert::EdgeAngle(angle) => self.edge_angle = Some(angle),
            ComponentWaitlistInsert::NetTransform => self.component_type = Some(ComponentType::NetTransform),
            ComponentWaitlistInsert::SkinOrSceneEntity(entity, t) => self.skin_or_scene_entity = Some((entity, t)),
            ComponentWaitlistInsert::ShapeName(name) => self.shape_name = Some(name),
        }
    }

    /// Marks the entry as a vertex with the given parent.
    pub fn set_parent(&mut self, parent: Option<u64>)
        ensures
            final(self)@ == with_parent(old(self)@, parent),
    {
        self.component_type = Some(ComponentType::Vertex);
        self.vertex_parent = Some(parent);
    }

    /// Whether a parent vertex is known (a skeleton root has none).
    pub fn has_parent(&self) -> (r: bool)
        ensures
            r == (self@.vertex_parent matches Some(Some(_))),
    {
        match self.vertex_parent {
            Some(Some(_)) => true,
            _ => false,
        }
    }

    /// Whether the entry is complete; its kind of shape must go with its file
    /// type.
    pub fn is_ready(&self) -> (r: bool)
        requires
            ready_outcome(self@) is Some,
        ensures
            r == ready_outcome(self@)->0,
            r ==> self@.file_entity is Some && self@.file_type is Some,
            r && self@.component_type == Some(ComponentType::NetTransform) ==> self@.skin_or_scene_entity is Some,
            r && self@.component_type == Some(ComponentType::NetTransform) && self@.file_type == Some(FileExtension::Model)
                ==> self@.shape_name is Some,
    {
        match self.component_type {
            Some(ComponentType::Vertex) => match self.file_type {
                None => false,
                Some(FileExtension::Skel) => self.file_entity.is_some() && self.vertex_parent.is_some(),
                Some(_) => self.file_entity.is_some(),
            },
            Some(ComponentType::Edge) => match self.file_type {
                None => false,
                Some(FileExtension::Skel) => self.file_entity.is_some() && self.edge_entities.is_some()
                    && self.edge_angle.is_some(),
                Some(_) => self.file_entity.is_some() && self.edge_entities.is_some(),
            },
            Some(ComponentType::Face) => self.file_type.is_some() && self.file_entity.is_some()
                && self.face_entities.is_some(),
            Some(ComponentType::NetTransform) => match self.file_type {
                None => false,
                Some(FileExtension::Model) => self.file_entity.is_some() && self.skin_or_scene_entity.is_some()
                    && self.shape_name.is_some(),
                Some(_) => self.file_entity.is_some() && self.skin_or_scene_entity.is_some(),
            },
            None => false,
        }
    }

    /// The shape that a complete entry describes, with its file entity and
    /// file type.
    pub fn decompose(self) -> (r: (ComponentData<A>, u64, FileExtension))
        requires
            decomposable(self@),
        ensures
            r == decomposed(self@),
    {
        let file_type = self.file_type.unwrap();
        let file_entity = self.file_entity.unwrap();
        let data = match (self.component_type, file_type) {
            (Some(ComponentType::Vertex), FileExtension::Skel) => ComponentData::Vertex(self.vertex_parent.unwrap()),
            (Some(ComponentType::Vertex), _) => ComponentData::Vertex(None),
            (Some(ComponentType::Edge), FileExtension::Mesh) => {
                let (a, b) = self.edge_entities.unwrap();
                ComponentData::Edge(a, b, None)
            },
            (Some(ComponentType::Edge), _) => {
                let (a, b) = self.edge_entities.unwrap();
                ComponentData::Edge(a, b, Some(self.edge_angle.unwrap()))
            },
            (Some(ComponentType::Face), _) => {
                let (va, vb, vc, ea, eb, ec) = self.face_entities.unwrap();
                ComponentData::Face(va, vb, vc, ea, eb, ec)
            },
            (_, FileExtension::Model) => ComponentData::NetTransform(Some(self.shape_name.unwrap())),
            _ => ComponentData::NetTransform(None),
        };
        (data, file_entity, file_type)
    }
}

/// How a complete shape is set up in the editor, by the kind of shape and the
/// type of its file.
pub enum ShapeSetup<A> {
    /// A skeleton vertex with its parent; the root (no parent) is drawn in
    /// the root color, the others in the enabled color.
    SkelVertex { file_entity: u64, parent: Option<u64> },
    /// A mesh vertex, drawn in the enabled color.
    MeshVertex { file_entity: u64 },
    /// A skeleton edge, with its angle where it has one.
    SkelEdge { file_entity: u64, start: u64, end: u64, angle: Option<A> },
    /// A mesh edge, which may close faces.
    MeshEdge { file_entity: u64, start: u64, end: u64 },
    /// The 3d face of a triangle: its key leaves the queue of new faces, and
    /// its 2d face is made first where it has none.
    Face { file_entity: u64, key: FaceKey },
    /// A transform of a model file, bound to the named shape.
    ModelTransform { file_entity: u64, shape_name: String },
    /// A transform of a scene file.
    SceneTransform { file_entity: u64 },
}

/// Whether a complete shape of this kind can be set up in a file of this
/// type.
pub open spec fn can_set_up<A>(data: ComponentData<A>, file_type: FileExtension) -> bool {
    match (file_type, data) {
        (FileExtension::Skel, ComponentData::Vertex(_)) => true,
        (FileExtension::Mesh, ComponentData::Vertex(_)) => true,
        (FileExtension::Skel, ComponentData::Edge(_, _, _)) => true,
        (FileExtension::Mesh, ComponentData::Edge(_, _, angle)) => angle is None,
        (_, ComponentData::Face(_, _, _, _, _, _)) => true,
        (FileExtension::Model, ComponentData::NetTransform(name)) => name is Some,
        (FileExtension::Scene, ComponentData::NetTransform(name)) => name is None,
        _ => false,
    }
}

/// The set-up of a complete shape of a file (see `can_set_up`).
pub open spec fn spec_setup_plan<A>(data: ComponentData<A>, file_entity: u64, file_type: FileExtension) -> ShapeSetup<A> {
    match (file_type, data) {
        (FileExtension::Skel, ComponentData::Vertex(parent)) => ShapeSetup::SkelVertex { file_entity, parent },
        (FileExtension::Skel, ComponentData::Edge(start, end, angle)) => ShapeSetup::SkelEdge { file_entity, start, end, angle },
        (FileExtension::Mesh, ComponentData::Vertex(_)) => ShapeSetup::MeshVertex { file_entity },
        (FileExtension::Mesh, ComponentData::Edge(start, end, _)) => ShapeSetup::MeshEdge { file_entity, start, end },
        (_, ComponentData::Face(a, b, c, _, _, _)) => ShapeSetup::Face { file_entity, key: face_key_of(a, b, c) },
        (FileExtension::Model, ComponentData::NetTransform(name)) => ShapeSetup::ModelTransform { file_entity, shape_name: name->0 },
        _ => ShapeSetup::SceneTransform { file_entity },
    }
}

/// Decides how a complete shape of the file `file_entity`, of type
/// `file_type`, is set up; the kind of shape must go with the file type.
pub fn setup_plan<A>(data: ComponentData<A>, file_entity: u64, file_type: FileExtension) -> (p: ShapeSetup<A>)
    requires
        can_set_up(data, file_type),
    ensures
        p == spec_setup_plan(data, file_entity, file_type),
{
    match (file_type, data) {
        (FileExtension::Skel, ComponentData::Vertex(parent)) => ShapeSetup::SkelVertex { file_entity, parent },
        (FileExtension::Skel, ComponentData::Edge(start, end, angle)) => ShapeSetup::SkelEdge { file_entity, start, end, angle },
        (FileExtension::Mesh, ComponentData::Vertex(_)) => ShapeSetup::MeshVertex { file_entity },
        (FileExtension::Mesh, ComponentData::Edge(start, end, _)) => ShapeSetup::MeshEdge { file_entity, start, end },
        (_, ComponentData::Face(a, b, c, _, _, _)) => ShapeSetup::Face { file_entity, key: FaceKey::new(a, b, c) },
        (FileExtension::Model, ComponentData::NetTransform(name)) => ShapeSetup::ModelTransform {
            file_entity,
            shape_name: name.unwrap(),
        },
        (_, _) => ShapeSetup::SceneTransform { file_entity },
    }
}

/// The color a vertex is drawn in.
#[derive(Clone, Copy, PartialEq, Eq, Structural, Debug)]
pub enum VertexColor {
    /// a skeleton's root
    Root,
    /// any other vertex
    Enabled,
}

/// What setting up a complete vertex hands to the editor's vertex set-up:
/// its parent, whether it is a skeleton's root, the file that owns it, its
/// color, and whether it is a mesh vertex.
#[derive(Clone, Copy, PartialEq, Eq, Structural, Debug)]
pub struct VertexSetupArgs {
    pub parent: Option<u64>,
    pub root: bool,
    pub owner: Option<u64>,
    pub color: VertexColor,
    pub mesh: bool,
}

/// The vertex set-up of a plan, for a vertex: a skeleton vertex keeps its
/// parent, is the root exactly when it has none (and is then drawn in the
/// root color); a mesh vertex has no parent, is no root, and is drawn in the
/// enabled color.
pub open spec fn spec_vertex_setup_args<A>(plan: ShapeSetup<A>) -> Option<VertexSetupArgs> {
    match plan {
        ShapeSetup::SkelVertex { file_entity, parent } => Some(VertexSetupArgs {
            parent,
            root: parent is None,
            owner: Some(file_entity),
            color: if parent is None { VertexColor::Root } else { VertexColor::Enabled },
            mesh: false,
        }),
        ShapeSetup::MeshVertex { file_entity } => Some(VertexSetupArgs {
            parent: None,
            root: false,
            owner: Some(file_entity),
            color: VertexColor::Enabled,
            mesh: true,
        }),
        _ => None,
    }
}

/// What the set-up of a planned vertex hands to the editor's vertex set-up
/// (see `spec_vertex_setup_args`); `None` for other shapes.
pub fn vertex_setup_args<A>(plan: &ShapeSetup<A>) -> (r: Option<VertexSetupArgs>)
    ensures
        r == spec_vertex_setup_args(*plan),
{
    match plan {
        ShapeSetup::SkelVertex { file_entity, parent } => Some(VertexSetupArgs {
            parent: *parent,
            root: parent.is_none(),
            owner: Some(*file_entity),
            color: if parent.is_none() { VertexColor::Root } else { VertexColor::Enabled },
            mesh: false,
        }),
        ShapeSetup::MeshVertex { file_entity } => Some(VertexSetupArgs {
            parent: None,
            root: false,
            owner: Some(*file_entity),
            color: VertexColor::Enabled,
            mesh: true,
        }),
        _ => None,
    }
}

/// Every entry that the waitlist hands out as complete (see `decomposable`)
/// describes a shape that can be set up in its file.
pub proof fn lemma_decomposed_can_set_up<A>(e: EntryView<A>)
    requires
        decomposable(e),
    ensures
        can_set_up(decomposed(e).0, decomposed(e).2),
{
}

/// What the editor has already set up, as far as the waitlist reads it: the
/// 3d vertices and edges, and the vertices and edges of the icon editor where
/// there is one.
pub struct ShapeRegistry {
    pub vertices: Set<u64>,
    pub edges: Set<u64>,
    pub icon: Option<(Set<u64>, Set<u64>)>,
}

pub open spec fn icon_view(icon_manager: Option<&IconManager>) -> Option<IconManagerView> {
    match icon_manager {
        Some(m) => Some(m@),
        None => None,
    }
}

pub open spec fn registry_of(vm: VertexManagerView, em: EdgeManagerView, icon: Option<IconManagerView>) -> ShapeRegistry {
    ShapeRegistry {
        vertices: vm.vertices.dom(),
        edges: em.edges.dom(),
        icon: match icon {
            Some(i) => Some((i.shapes.vertices.dom(), i.shapes.edges.dom())),
            None => None,
        },
    }
}

/// The entities of kind `t` among the shapes set up so far.
pub open spec fn completed_of<A>(done: Seq<(u64, EntryView<A>)>, t: ComponentType) -> Set<u64>
    decreases done.len(),
{
    if done.len() == 0 {
        Set::empty()
    } else {
        let prev = completed_of(done.drop_last(), t);
        if done.last().1.component_type == Some(t) {
            prev.insert(done.last().0)
        } else {
            prev
        }
    }
}

/// What a complete entry still waits for before it can be set up: the
/// vertices and edges it names that are not set up yet (`dv` and `de` are the
/// vertices and edges set up since the registry was read); `None` where its
/// kind of shape does not go with its file type, or where an icon shape comes
/// with no icon editor.
pub open spec fn dependencies<A>(e: EntryView<A>, reg: ShapeRegistry, dv: Set<u64>, de: Set<u64>) -> Option<Set<u64>> {
    let kv = reg.vertices.union(dv);
    let ke = reg.edges.union(de);
    match (e.component_type, e.file_type) {
        (Some(ComponentType::Vertex), Some(FileExtension::Skel)) => match e.vertex_parent {
            Some(Some(p)) => Some(set![p].difference(kv)),
            _ => Some(Set::empty()),
        },
        (Some(ComponentType::Edge), Some(FileExtension::Skel)) | (Some(ComponentType::Edge), Some(FileExtension::Mesh)) => {
            let (a, b) = e.edge_entities->0;
            Some(set![a, b].difference(kv))
        },
        (Some(ComponentType::Face), Some(FileExtension::Mesh)) => {
            let (va, vb, vc, ea, eb, ec) = e.face_entities->0;
            Some(set![va, vb, vc].difference(kv).union(set![ea, eb, ec].difference(ke)))
        },
        (Some(ComponentType::Edge), Some(FileExtension::Icon)) => match reg.icon {
            Some((iv, ie)) => {
                let (a, b) = e.edge_entities->0;
                Some(set![a, b].difference(iv))
            },
            None => None,
        },
        (Some(ComponentType::Face), Some(FileExtension::Icon)) => match reg.icon {
            Some((iv, ie)) => {
                let (va, vb, vc, ea, eb, ec) = e.face_entities->0;
                Some(set![va, vb, vc].difference(iv).union(set![ea, eb, ec].difference(ie)))
            },
            None => None,
        },
        (Some(ComponentType::Vertex), Some(FileExtension::Mesh))
        | (Some(ComponentType::NetTransform), Some(FileExtension::Model))
        | (Some(ComponentType::NetTransform), Some(FileExtension::Scene)) => Some(Set::empty()),
        _ => None,
    }
}

/// Sets up shapes from a stack of complete ones (the next on top): each is
/// set up, then the waiters that it was the last thing missing for are set up
/// before anything below it, in the order they started waiting. Gives the
/// waiters left and the shapes in the order they were set up.
pub open spec fn drain<A>(ws: Seq<(u64, Set<u64>, EntryView<A>)>, stack: Seq<(u64, EntryView<A>)>) -> (
    Seq<(u64, Set<u64>, EntryView<A>)>,
    Seq<(u64, EntryView<A>)>,
)
    decreases ws.len() + stack.len(),
{
    if stack.len() == 0 {
        (ws, Seq::empty())
    } else {
        let top = stack.last();
        proof {
            lemma_split_len(ws, top.0);
        }
        let (rest, out) = drain(kept(ws, top.0), stack.drop_last() + released(ws, top.0).reverse());
        (rest, seq![top] + out)
    }
}

/// The waitlist: entries still missing components, and complete entries
/// that wait for the shapes they name.
pub struct WaitlistView<A> {
    pub incomplete: Map<u64, EntryView<A>>,
    pub waiting: Seq<(u64, Set<u64>, EntryView<A>)>,
}

/// Checks, in order, the entities that an arrival may have completed: stops
/// at the first that is not complete; a complete one leaves the incomplete
/// entries and either waits for the shapes it names or is set up, with all
/// that waited for it. `None` where the process would stop on an error.
pub open spec fn run<A>(s: WaitlistView<A>, list: Seq<u64>, reg: ShapeRegistry, done: Seq<(u64, EntryView<A>)>) -> Option<
    (WaitlistView<A>, Seq<(u64, EntryView<A>)>),
>
    decreases list.len(),
{
    if list.len() == 0 {
        Some((s, done))
    } else {
        let x = list[0];
        if !s.incomplete.contains_key(x) {
            None
        } else {
            let e = s.incomplete[x];
            match ready_outcome(e) {
                None => None,
                Some(false) => Some((s, done)),
                Some(true) => {
                    let inc = s.incomplete.remove(x);
                    match dependencies(
                        e,
                        reg,
                        completed_of(done, ComponentType::Vertex),
                        completed_of(done, ComponentType::Edge),
                    ) {
                        None => None,
                        Some(deps) => if deps == Set::<u64>::empty() {
                            let (ws, out) = drain(s.waiting, seq![(x, e)]);
                            run(WaitlistView { incomplete: inc, waiting: ws }, list.drop_first(), reg, done + out)
                        } else {
                            run(
                                WaitlistView { incomplete: inc, waiting: s.waiting.push((x, deps, e)) },
                                list.drop_first(),
                                reg,
                                done,
                            )
                        },
                    }
                },
            }
        }
    }
}

/// The waitlist after one component of `entity` arrived, with the entities
/// to check: the entity, and for an edge, its end vertex where that is
/// waiting too (it learns its parent, the edge's start).
pub open spec fn inserted<A>(s: WaitlistView<A>, entity: u64, insert: ComponentWaitlistInsert<A>) -> (
    WaitlistView<A>,
    Seq<u64>,
) {
    let base = if s.incomplete.contains_key(entity) {
        s.incomplete[entity]
    } else {
        empty_entry()
    };
    let inc = s.incomplete.insert(entity, entry_after(base, insert));
    match insert {
        ComponentWaitlistInsert::Edge(start, end) => if inc.contains_key(end) {
            (
                WaitlistView { incomplete: inc.insert(end, with_parent(inc[end], Some(start))), waiting: s.waiting },
                seq![entity, end],
            )
        } else {
            (WaitlistView { incomplete: inc, waiting: s.waiting }, seq![entity])
        },
        _ => (WaitlistView { incomplete: inc, waiting: s.waiting }, seq![entity]),
    }
}

/// The waitlist and the shapes to set up, in order, after one component of
/// `entity` arrived; `None` where the process would stop on an error.
pub open spec fn insert_outcome<A>(
    s: WaitlistView<A>,
    reg: ShapeRegistry,
    entity: u64,
    insert: ComponentWaitlistInsert<A>,
) -> Option<(WaitlistView<A>, Seq<(u64, EntryView<A>)>)> {
    let (s1, list) = inserted(s, entity, insert);
    run(s1, list, reg, Seq::empty())
}

pub open spec fn all_decomposable<A>(s: Seq<(u64, EntryView<A>)>) -> bool {
    forall|i: int| 0 <= i < s.len() ==> decomposable(#[trigger] s[i].1)
}

pub open spec fn waiting_decomposable<A>(ws: Seq<(u64, Set<u64>, EntryView<A>)>) -> bool {
    forall|i: int| 0 <= i < ws.len() ==> decomposable(#[trigger] ws[i].2)
}

proof fn lemma_ready_with_dependencies_decomposable<A>(e: EntryView<A>, reg: ShapeRegistry, dv: Set<u64>, de: Set<u64>)
    requires
        ready_outcome(e) == Some(true),
        dependencies(e, reg, dv, de) is Some,
    ensures
        decomposable(e),
{
}

proof fn lemma_drain_decomposable<A>(ws: Seq<(u64, Set<u64>, EntryView<A>)>, stack: Seq<(u64, EntryView<A>)>)
    requires
        waiting_decomposable(ws),
        all_decomposable(stack),
    ensures
        waiting_decomposable(drain(ws, stack).0),
        all_decomposable(drain(ws, stack).1),
    decreases ws.len() + stack.len(),
{
    if stack.len() > 0 {
        let top = stack.last();
        lemma_split_len(ws, top.0);
        lemma_split_keeps(ws, top.0, |e: EntryView<A>| decomposable(e));
        let rel = released(ws, top.0);
        let next = stack.drop_last() + rel.reverse();
        assert forall|i: int| 0 <= i < next.len() implies decomposable(#[trigger] next[i].1) by {
            if i < stack.len() - 1 {
                assert(next[i] == stack[i]);
            } else {
                let j = i - (stack.len() - 1);
                assert(next[i] == rel.reverse()[j]);
                assert(rel.reverse()[j] == rel[rel.len() - 1 - j]);
            }
        }
        lemma_drain_decomposable(kept(ws, top.0), next);
        let out = drain(kept(ws, top.0), next).1;
        assert forall|i: int| 0 <= i < (seq![top] + out).len() implies decomposable(#[trigger] (seq![top] + out)[i].1) by {
            if i > 0 {
                assert((seq![top] + out)[i] == out[i - 1]);
            }
        }
    }
}

proof fn lemma_reverse_step<T>(r: Seq<T>, k: int)
    requires
        0 < k <= r.len(),
    ensures
        r.subrange(k - 1, r.len() as int).reverse() == r.subrange(k, r.len() as int).reverse().push(r[k - 1]),
{
    let a = r.subrange(k - 1, r.len() as int);
    let b = r.subrange(k, r.len() as int);
    assert(a.reverse() =~= b.reverse().push(r[k - 1]));
}

proof fn lemma_completed_push<A>(done: Seq<(u64, EntryView<A>)>, x: (u64, EntryView<A>), t: ComponentType)
    ensures
        completed_of(done.push(x), t) == if x.1.component_type == Some(t) {
            completed_of(done, t).insert(x.0)
        } else {
            completed_of(done, t)
        },
{
    assert(done.push(x).drop_last() == done);
}

/// Adds `x` to `deps` unless it is known.
fn add_if_missing(deps: &mut IdSet, x: u64, known: bool)
    ensures
        final(deps)@ == if known { old(deps)@ } else { old(deps)@.insert(x) },
{
    if !known {
        deps.insert(x);
    }
}

fn known_vertex(vertex_manager: &VertexManager, done_vertices: &IdSet, x: u64) -> (r: bool)
    ensures
        r == (vertex_manager@.vertices.dom().union(done_vertices@).contains(x)),
{
    vertex_manager.has_vertex_entity_3d(x) || done_vertices.contains(x)
}

fn known_edge(edge_manager: &EdgeManager, done_edges: &IdSet, x: u64) -> (r: bool)
    ensures
        r == (edge_manager@.edges.dom().union(done_edges@).contains(x)),
{
    edge_manager.has_edge_entity_3d(x) || done_edges.contains(x)
}

/// What a complete entry still waits for (see `dependencies`).
fn dependencies_of<A>(
    entry: &ComponentWaitlistEntry<A>,
    vertex_manager: &VertexManager,
    edge_manager: &EdgeManager,
    icon_manager: Option<&IconManager>,
    done_vertices: &IdSet,
    done_edges: &IdSet,
) -> (r: IdSet)
    requires
        ready_outcome(entry@) == Some(true),
        dependencies(
            entry@,
            registry_of(vertex_manager@, edge_manager@, icon_view(icon_manager)),
            done_vertices@,
            done_edges@,
        ) is Some,
    ensures
        r@ == dependencies(
            entry@,
            registry_of(vertex_manager@, edge_manager@, icon_view(icon_manager)),
            done_vertices@,
            done_edges@,
        )->0,
{
    let ghost reg = registry_of(vertex_manager@, edge_manager@, icon_view(icon_manager));
    let ghost kv = reg.vertices.union(done_vertices@);
    let ghost ke = reg.edges.union(done_edges@);
    let mut deps = IdSet::new();
    match (entry.component_type, entry.file_type) {
        (Some(ComponentType::Vertex), Some(FileExtension::Skel)) => {
            if let Some(Some(p)) = entry.vertex_parent {
                add_if_missing(&mut deps, p, known_vertex(vertex_manager, done_vertices, p));
                assert(deps@ =~= set![p].difference(kv));
            } else {
                assert(deps@ =~= Set::<u64>::empty());
            }
        },
        (Some(ComponentType::Edge), Some(FileExtension::Skel)) | (Some(ComponentType::Edge), Some(FileExtension::Mesh)) => {
            let (a, b) = entry.edge_entities.unwrap();
            add_if_missing(&mut deps, a, known_vertex(vertex_manager, done_vertices, a));
            add_if_missing(&mut deps, b, known_vertex(vertex_manager, done_vertices, b));
            assert(deps@ =~= set![a, b].difference(kv));
        },
        (Some(ComponentType::Face), Some(FileExtension::Mesh)) => {
            let (va, vb, vc, ea, eb, ec) = entry.face_entities.unwrap();
            add_if_missing(&mut deps, va, known_vertex(vertex_manager, done_vertices, va));
            add_if_missing(&mut deps, vb, known_vertex(vertex_manager, done_vertices, vb));
            add_if_missing(&mut deps, vc, known_vertex(vertex_manager, done_vertices, vc));
            add_if_missing(&mut deps, ea, known_edge(edge_manager, done_edges, ea));
            add_if_missing(&mut deps, eb, known_edge(edge_manager, done_edges, eb));
            add_if_missing(&mut deps, ec, known_edge(edge_manager, done_edges, ec));
            assert(deps@ =~= set![va, vb, vc].difference(kv).union(set![ea, eb, ec].difference(ke)));
        },
        (Some(ComponentType::Edge), Some(FileExtension::Icon)) => {
            let icon = icon_manager.unwrap();
            let (a, b) = entry.edge_entities.unwrap();
            add_if_missing(&mut deps, a, icon.has_vertex_entity(a));
            add_if_missing(&mut deps, b, icon.has_vertex_entity(b));
            assert(deps@ =~= set![a, b].difference(icon@.shapes.vertices.dom()));
        },
        (Some(ComponentType::Face), Some(FileExtension::Icon)) => {
            let icon = icon_manager.unwrap();
            let (va, vb, vc, ea, eb, ec) = entry.face_entities.unwrap();
            add_if_missing(&mut deps, va, icon.has_vertex_entity(va));
            add_if_missing(&mut deps, vb, icon.has_vertex_entity(vb));
            add_if_missing(&mut deps, vc, icon.has_vertex_entity(vc));
            add_if_missing(&mut deps, ea, icon.has_edge_entity(ea));
            add_if_missing(&mut deps, eb, icon.has_edge_entity(eb));
            add_if_missing(&mut deps, ec, icon.has_edge_entity(ec));
            assert(deps@ =~= set![va, vb, vc].difference(icon@.shapes.vertices.dom()).union(
                set![ea, eb, ec].difference(icon@.shapes.edges.dom()),
            ));
        },
        _ => {
            assert(deps@ =~= Set::<u64>::empty());
        },
    }
    deps
}

/// Shapes whose components arrive one by one over the network: each entity's
/// components are gathered until its shape is complete, and a complete shape
/// waits until the vertices and edges it names are set up.
pub struct ComponentWaitlist<A> {
    incomplete_entries: HashMap<u64, ComponentWaitlistEntry<A>>,
    dependency_map: DependencyMap<ComponentWaitlistEntry<A>>,
}

impl<A> View for ComponentWaitlist<A> {
    type V = WaitlistView<A>;

    closed spec fn view(&self) -> WaitlistView<A> {
        WaitlistView {
            incomplete: self.incomplete_entries@.map_values(|e: ComponentWaitlistEntry<A>| e@),
            waiting: self.dependency_map@,
        }
    }
}

impl<A> ComponentWaitlist<A> {
    /// Every waiting entry can be set up once what it waits for is.
    pub open spec fn wf(&self) -> bool {
        waiting_decomposable(self@.waiting)
    }

    pub fn new() -> (w: Self)
        ensures
            w.wf(),
            w@.incomplete == Map::<u64, EntryView<A>>::empty(),
            w@.waiting == Seq::<(u64, Set<u64>, EntryView<A>)>::empty(),
    {
        let w = ComponentWaitlist { incomplete_entries: HashMap::new(), dependency_map: DependencyMap::new() };
        assert(w@.incomplete =~= Map::<u64, EntryView<A>>::empty());
        w
    }
    /// Sets up the complete entry of `x`, then, depth first, every waiter
    /// that it completes; the shapes are appended to `done` in that order.
    fn set_up(
        &mut self,
        x: u64,
        entry: ComponentWaitlistEntry<A>,
        done: &mut Vec<(u64, ComponentWaitlistEntry<A>)>,
        done_vertices: &mut IdSet,
        done_edges: &mut IdSet,
    )
        requires
            old(self).wf(),
            decomposable(entry@),
            all_decomposable(pairs_view(old(done)@)),
            old(done_vertices)@ == completed_of(pairs_view(old(done)@), ComponentType::Vertex),
            old(done_edges)@ == completed_of(pairs_view(old(done)@), ComponentType::Edge),
        ensures
            final(self).wf(),
            final(self)@.incomplete == old(self)@.incomplete,
            final(self)@.waiting == drain(old(self)@.waiting, seq![(x, entry@)]).0,
            pairs_view(final(done)@) == pairs_view(old(done)@) + drain(old(self)@.waiting, seq![(x, entry@)]).1,
            all_decomposable(pairs_view(final(done)@)),
            final(done_vertices)@ == completed_of(pairs_view(final(done)@), ComponentType::Vertex),
            final(done_edges)@ == completed_of(pairs_view(final(done)@), ComponentType::Edge),
    {
        let ghost d0 = pairs_view(done@);
        let ghost w0 = drain(self.dependency_map@, seq![(x, entry@)]).0;
        let ghost o0 = drain(self.dependency_map@, seq![(x, entry@)]).1;
        let ghost inc0 = self@.incomplete;
        let mut stack: Vec<(u64, ComponentWaitlistEntry<A>)> = Vec::new();
        stack.push((x, entry));
        assert(pairs_view(stack@) =~= seq![(x, entry@)]);
        assert(d0 + o0 =~= pairs_view(done@) + drain(self.dependency_map@, pairs_view(stack@)).1);
        while stack.len() > 0
            invariant
                self@.incomplete == inc0,
                drain(self.dependency_map@, pairs_view(stack@)).0 == w0,
                d0 + o0 == pairs_view(done@) + drain(self.dependency_map@, pairs_view(stack@)).1,
                waiting_decomposable(self.dependency_map@),
                all_decomposable(pairs_view(stack@)),
                all_decomposable(pairs_view(done@)),
                done_vertices@ == completed_of(pairs_view(done@), ComponentType::Vertex),
                done_edges@ == completed_of(pairs_view(done@), ComponentType::Edge),
            decreases self.dependency_map@.len() + stack@.len(),
        {
            let ghost ws = self.dependency_map@;
            let ghost st = pairs_view(stack@);
            let (y, ey) = stack.pop().unwrap();
            let ghost top = (y, ey@);
            proof {
                assert(st.last() == top);
                assert(pairs_view(stack@) =~= st.drop_last());
                lemma_split_len(ws, y);
                lemma_split_keeps(ws, y, |e: EntryView<A>| decomposable(e));
                lemma_completed_push(pairs_view(done@), top, ComponentType::Vertex);
                lemma_completed_push(pairs_view(done@), top, ComponentType::Edge);
                assert(decomposable(st[st.len() - 1].1));
            }
            match ey.component_type {
                Some(ComponentType::Vertex) => {
                    done_vertices.insert(y);
                },
                Some(ComponentType::Edge) => {
                    done_edges.insert(y);
                },
                _ => {},
            }
            let mut rel = self.dependency_map.on_dependency_complete(y);
            let ghost r = released(ws, y);
            let ghost dv = pairs_view(done@);
            done.push((y, ey));
            proof {
                assert(pairs_view(done@) =~= dv.push(top));
                assert(r.subrange(r.len() as int, r.len() as int).reverse() =~= Seq::<(u64, EntryView<A>)>::empty());
                assert(r.subrange(0, r.len() as int) =~= r);
                assert(pairs_view(stack@) =~= st.drop_last() + r.subrange(rel@.len() as int, r.len() as int).reverse());
            }
            while rel.len() > 0
                invariant
                    r == released(ws, y),
                    pairs_view(rel@) == r.subrange(0, rel@.len() as int),
                    rel@.len() <= r.len(),
                    pairs_view(stack@) == st.drop_last() + r.subrange(rel@.len() as int, r.len() as int).reverse(),
                decreases rel@.len(),
            {
                let ghost k = rel@.len() as int;
                let ghost s_before = pairs_view(stack@);
                let ghost rv = pairs_view(rel@);
                let p = rel.pop().unwrap();
                proof {
                    assert(pairs_view(rel@) =~= rv.drop_last());
                    assert(pairs_view(rel@) =~= r.subrange(0, k - 1));
                    assert(rv[k - 1] == (p.0, p.1@));
                    assert((p.0, p.1@) == r[k - 1]);
                    lemma_reverse_step(r, k);
                }
                stack.push(p);
                proof {
                    assert(pairs_view(stack@) =~= s_before.push((p.0, p.1@)));
                    assert(st.drop_last() + r.subrange(k - 1, r.len() as int).reverse()
                        =~= (st.drop_last() + r.subrange(k, r.len() as int).reverse()).push(r[k - 1]));
                }
            }
            proof {
                assert(r.subrange(0, r.len() as int) =~= r);
                let next = pairs_view(stack@);
                assert(next =~= st.drop_last() + r.reverse());
                assert forall|i: int| 0 <= i < next.len() implies decomposable(#[trigger] next[i].1) by {
                    if i < st.len() - 1 {
                        assert(next[i] == st.drop_last()[i]);
                        assert(st.drop_last()[i] == st[i]);
                    } else {
                        let j = i - (st.len() - 1);
                        assert(next[i] == r.reverse()[j]);
                        assert(r.reverse()[j] == r[r.len() - 1 - j]);
                    }
                }
                let tail = drain(self.dependency_map@, next).1;
                assert(drain(ws, st).1 == seq![top] + tail);
                assert(dv.push(top) + tail =~= dv + (seq![top] + tail));
                assert forall|i: int| 0 <= i < pairs_view(done@).len() implies decomposable(#[trigger] pairs_view(done@)[i].1) by {
                    if i < dv.len() {
                        assert(pairs_view(done@)[i] == dv[i]);
                    }
                }
            }
        }
        proof {
            assert(drain(self.dependency_map@, pairs_view(stack@)).1 =~= Seq::<(u64, EntryView<A>)>::empty());
            assert(d0 + o0 =~= pairs_view(done@));
        }
    }
    /// Takes in one component of `entity` as it arrives, and returns, in
    /// order, the entries that are now complete and may be set up (each
    /// after the vertices and edges it names): a complete entry whose
    /// vertices or edges are not set up yet waits for them, and is set up
    /// right after the last of them. When any entry is handed out, the
    /// canvas shapes get a resync.
    pub fn process_insert(
        &mut self,
        canvas: &mut Canvas,
        vertex_manager: &VertexManager,
        edge_manager: &EdgeManager,
        icon_manager: Option<&IconManager>,
        entity: u64,
        insert: ComponentWaitlistInsert<A>,
    ) -> (done: Vec<(u64, ComponentWaitlistEntry<A>)>)
        requires
            old(self).wf(),
            insert_outcome(
                old(self)@,
                registry_of(vertex_manager@, edge_manager@, icon_view(icon_manager)),
                entity,
                insert,
            ) is Some,
        ensures
            final(self).wf(),
            (final(self)@, pairs_view(done@)) == insert_outcome(
                old(self)@,
                registry_of(vertex_manager@, edge_manager@, icon_view(icon_manager)),
                entity,
                insert,
            )->0,
            all_decomposable(pairs_view(done@)),
            *final(canvas) == if done@.len() > 0 {
                Canvas { resync_shapes: 2, ..*old(canvas) }
            } else {
                *old(canvas)
            },
    {
        let done = self.gather_insert(vertex_manager, edge_manager, icon_manager, entity, insert);
        if done.len() > 0 {
            canvas.queue_resync_shapes();
        }
        done
    }

    fn gather_insert(
        &mut self,
        vertex_manager: &VertexManager,
        edge_manager: &EdgeManager,
        icon_manager: Option<&IconManager>,
        entity: u64,
        insert: ComponentWaitlistInsert<A>,
    ) -> (done: Vec<(u64, ComponentWaitlistEntry<A>)>)
        requires
            old(self).wf(),
            insert_outcome(
                old(self)@,
                registry_of(vertex_manager@, edge_manager@, icon_view(icon_manager)),
                entity,
                insert,
            ) is Some,
        ensures
            final(self).wf(),
            (final(self)@, pairs_view(done@)) == insert_outcome(
                old(self)@,
                registry_of(vertex_manager@, edge_manager@, icon_view(icon_manager)),
                entity,
                insert,
            )->0,
            all_decomposable(pairs_view(done@)),
    {
        let ghost reg = registry_of(vertex_manager@, edge_manager@, icon_view(icon_manager));
        let ghost outcome = insert_outcome(self@, reg, entity, insert);
        let ghost s1 = inserted(self@, entity, insert).0;
        let ghost list0 = inserted(self@, entity, insert).1;
        let ghost inc_before = self.incomplete_entries@;
        let end_opt: Option<(u64, u64)> = match &insert {
            ComponentWaitlistInsert::Edge(start, end) => Some((*start, *end)),
            _ => None,
        };
        let mut e = match self.incomplete_entries.remove(&entity) {
            Some(e) => e,
            None => ComponentWaitlistEntry::new(),
        };
        e.apply(insert);
        self.incomplete_entries.insert(entity, e);
        let mut list: Vec<u64> = Vec::new();
        list.push(entity);
        if let Some((start, end)) = end_opt {
            if let Some(mut v) = self.incomplete_entries.remove(&end) {
                v.set_parent(Some(start));
                self.incomplete_entries.insert(end, v);
                list.push(end);
            }
        }
        proof {
            assert(self@.incomplete =~= s1.incomplete);
            assert(list@ =~= list0);
        }
        let mut done: Vec<(u64, ComponentWaitlistEntry<A>)> = Vec::new();
        let mut done_vertices = IdSet::new();
        let mut done_edges = IdSet::new();
        let mut i: usize = 0;
        proof {
            assert(list@.subrange(0, list@.len() as int) =~= list0);
            assert(pairs_view(done@) =~= Seq::<(u64, EntryView<A>)>::empty());
            assert(done_vertices@ =~= completed_of(pairs_view(done@), ComponentType::Vertex));
            assert(done_edges@ =~= completed_of(pairs_view(done@), ComponentType::Edge));
        }
        while i < list.len()
            invariant
                i <= list@.len(),
                run(self@, list@.subrange(i as int, list@.len() as int), reg, pairs_view(done@)) == outcome,
                outcome is Some,
                outcome == insert_outcome(old(self)@, reg, entity, insert),
                self.wf(),
                all_decomposable(pairs_view(done@)),
                done_vertices@ == completed_of(pairs_view(done@), ComponentType::Vertex),
                done_edges@ == completed_of(pairs_view(done@), ComponentType::Edge),
                reg == registry_of(vertex_manager@, edge_manager@, icon_view(icon_manager)),
            decreases list@.len() - i,
        {
            let x = list[i];
            let ghost rest = list@.subrange(i as int, list@.len() as int);
            proof {
                assert(rest[0] == x);
                assert(rest.drop_first() =~= list@.subrange(i + 1, list@.len() as int));
            }
            let ghost s_cur = self@;
            proof {
                assert(s_cur.incomplete.contains_key(x) == self.incomplete_entries@.contains_key(x));
                if self.incomplete_entries@.contains_key(x) {
                    assert(s_cur.incomplete[x] == self.incomplete_entries@[x]@);
                }
            }
            let ready = match self.incomplete_entries.get(&x) {
                Some(entry) => entry.is_ready(),
                None => false,
            };
            if !ready {
                proof {
                    assert(s_cur.incomplete.contains_key(x));
                    assert(ready_outcome(s_cur.incomplete[x]) == Some(false));
                    assert(run(s_cur, rest, reg, pairs_view(done@)) == Some((s_cur, pairs_view(done@))));
                    assert(outcome->0 == (s_cur, pairs_view(done@)));
                    assert(self@ == s_cur);
                }
                return done;
            }
            let entry = self.incomplete_entries.remove(&x).unwrap();
            let ghost ev = entry@;
            proof {
                assert(self@.incomplete =~= s_cur.incomplete.remove(x));
            }
            let deps = dependencies_of(&entry, vertex_manager, edge_manager, icon_manager, &done_vertices, &done_edges);
            proof {
                lemma_ready_with_dependencies_decomposable(ev, reg, done_vertices@, done_edges@);
            }
            if deps.is_empty() {
                let ghost d_before = pairs_view(done@);
                self.set_up(x, entry, &mut done, &mut done_vertices, &mut done_edges);
                proof {
                    let (ws, out) = drain(s_cur.waiting, seq![(x, ev)]);
                    assert(self@ == WaitlistView { incomplete: s_cur.incomplete.remove(x), waiting: ws });
                    assert(pairs_view(done@) == d_before + out);
                }
            } else {
                let ghost before = self@;
                self.dependency_map.insert_waiting_dependencies(deps, x, entry);
                proof {
                    assert forall|k: int| 0 <= k < self@.waiting.len() implies decomposable(#[trigger] self@.waiting[k].2) by {
                        if k < before.waiting.len() {
                            assert(self@.waiting[k] == before.waiting[k]);
                        }
                    }
                }
            }
            i = i + 1;
        }
        proof {
            assert(list@.subrange(i as int, list@.len() as int) =~= Seq::<u64>::empty());
        }
        done
    }
}

impl<A> Default for ComponentWaitlist<A> {
    fn default() -> (w: Self)
        ensures
            w.wf(),
            w@.incomplete == Map::<u64, EntryView<A>>::empty(),
            w@.waiting == Seq::<(u64, Set<u64>, EntryView<A>)>::empty(),
    {
        ComponentWaitlist::new()
    }
}

} // verus!
