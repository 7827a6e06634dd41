use vstd::prelude::*;
use std::collections::HashMap;
use crate::id_set::IdSet;

verus! {

broadcast use vstd::std_specs::hash::group_hash_axioms;

/// The controls of one model transform: the 2d edge it is bound to, the file
/// that owns it, and the 2d and 3d entities of its translation, rotation and
/// scale handles.
#[derive(Clone, Copy, PartialEq, Eq, Structural, Debug)]
pub struct ModelTransformData {
    pub edge_2d_entity: u64,
    pub owning_file_entity: u64,
    pub translation_entity_2d: u64,
    pub translation_entity_3d: u64,
    pub rotation_entity_2d: u64,
    pub rotation_entity_3d: u64,
    pub scale_entity_2d: u64,
    pub scale_entity_3d: u64,
}

/// The model transforms of the open models, by entity, by bound 2d edge, and
/// by owning file; and the edge waiting to be bound to a skin or scene.
pub struct ModelManager {
    file_to_model_transforms: HashMap<u64, IdSet>,
    model_transforms: HashMap<u64, ModelTransformData>,
    edge_2d_to_model_transform: HashMap<u64, u64>,
    binding_edge_opt: Option<u64>,
}

pub struct ModelManagerView {
    pub file_to_model_transforms: Map<u64, Set<u64>>,
    pub model_transforms: Map<u64, ModelTransformData>,
    pub edge_2d_to_model_transform: Map<u64, u64>,
    pub binding_edge: Option<u64>,
}

impl View for ModelManager {
    type V = ModelManagerView;

    closed spec fn view(&self) -> ModelManagerView {
        ModelManagerView {
            file_to_model_transforms: self.file_to_model_transforms@.map_values(|s: IdSet| s@),
            model_transforms: self.model_transforms@,
            edge_2d_to_model_transform: self.edge_2d_to_model_transform@,
            binding_edge: self.binding_edge_opt,
        }
    }
}

impl ModelManagerView {
    /// Each transform is listed under its owning file, and each file lists
    /// only transforms it owns.
    pub open spec fn consistent(self) -> bool {
        &&& forall|t: u64| #[trigger] self.model_transforms.contains_key(t) ==> {
            let f = self.model_transforms[t].owning_file_entity;
            self.file_to_model_transforms.contains_key(f) && self.file_to_model_transforms[f].contains(t)
        }
        &&& forall|f: u64, t: u64| #[trigger] self.file_to_model_transforms.contains_key(f)
            && #[trigger] self.file_to_model_transforms[f].contains(t) ==> self.model_transforms.contains_key(t)
                && self.model_transforms[t].owning_file_entity == f
        &&& forall|f: u64| #[trigger] self.file_to_model_transforms.contains_key(f) ==> !self.file_to_model_transforms[f].is_empty()
    }
}

impl ModelManagerView {
    /// The registry with transform `t` and its controls `d` recorded.
    pub open spec fn registered(self, t: u64, d: ModelTransformData) -> Self {
        ModelManagerView {
            model_transforms: self.model_transforms.insert(t, d),
            edge_2d_to_model_transform: self.edge_2d_to_model_transform.insert(d.edge_2d_entity, t),
            file_to_model_transforms: self.file_to_model_transforms.insert(
                d.owning_file_entity,
                if self.file_to_model_transforms.contains_key(d.owning_file_entity) {
                    self.file_to_model_transforms[d.owning_file_entity].insert(t)
                } else {
                    set![t]
                },
            ),
            ..self
        }
    }

    /// The registry with the registered transform `t` forgotten, and its
    /// file forgotten once it owns no transform.
    pub open spec fn deregistered(self, t: u64) -> Self {
        let d = self.model_transforms[t];
        let f = d.owning_file_entity;
        let rest = self.file_to_model_transforms[f].remove(t);
        ModelManagerView {
            model_transforms: self.model_transforms.remove(t),
            edge_2d_to_model_transform: self.edge_2d_to_model_transform.remove(d.edge_2d_entity),
            file_to_model_transforms: if rest.is_empty() {
                self.file_to_model_transforms.remove(f)
            } else {
                self.file_to_model_transforms.insert(f, rest)
            },
            ..self
        }
    }
}

/// Forgetting a model transform right after recording it gives the registry
/// back as it was (for a transform and an edge that were not registered).
pub proof fn lemma_register_then_deregister(s: ModelManagerView, t: u64, d: ModelTransformData)
    requires
        s.consistent(),
        !s.model_transforms.contains_key(t),
        !s.edge_2d_to_model_transform.contains_key(d.edge_2d_entity),
    ensures
        s.registered(t, d).deregistered(t) == s,
{
    let r = s.registered(t, d);
    let f = d.owning_file_entity;
    assert(r.model_transforms[t] == d);
    assert(r.model_transforms.remove(t) =~= s.model_transforms);
    assert(r.edge_2d_to_model_transform.remove(d.edge_2d_entity) =~= s.edge_2d_to_model_transform);
    if s.file_to_model_transforms.contains_key(f) {
        assert(!s.file_to_model_transforms[f].contains(t));
        assert(r.file_to_model_transforms[f].remove(t) =~= s.file_to_model_transforms[f]);
        assert(!s.file_to_model_transforms[f].is_empty());
        assert(r.file_to_model_transforms.insert(f, s.file_to_model_transforms[f]) =~= s.file_to_model_transforms);
    } else {
        assert(r.file_to_model_transforms[f].remove(t) =~= Set::<u64>::empty());
        assert(r.file_to_model_transforms.remove(f) =~= s.file_to_model_transforms);
    }
}

impl ModelManager {
    pub open spec fn wf(&self) -> bool {
        self@.consistent()
    }

    pub fn new() -> (m: Self)
        ensures
            m.wf(),
            m@.file_to_model_transforms == Map::<u64, Set<u64>>::empty(),
            m@.model_transforms == Map::<u64, ModelTransformData>::empty(),
            m@.edge_2d_to_model_transform == Map::<u64, u64>::empty(),
            m@.binding_edge is None,
    {
        let m = ModelManager {
            file_to_model_transforms: HashMap::new(),
            model_transforms: HashMap::new(),
            edge_2d_to_model_transform: HashMap::new(),
            binding_edge_opt: None,
        };
        assert(m@.file_to_model_transforms =~= Map::<u64, Set<u64>>::empty());
        m
    }

    pub fn edge_is_binding(&self) -> (r: bool)
        ensures
            r == (self@.binding_edge is Some),
    {
        self.binding_edge_opt.is_some()
    }

    /// Starts binding the 2d edge to a skin or scene file.
    pub fn edge_init_assign_skin_or_scene(&mut self, edge_2d_entity: u64)
        ensures
            final(self)@ == (ModelManagerView { binding_edge: Some(edge_2d_entity), ..old(self)@ }),
    {
        self.binding_edge_opt = Some(edge_2d_entity);
    }

    /// Takes the edge being bound; one must be.
    pub fn take_binding_edge(&mut self) -> (e: u64)
        requires
            old(self)@.binding_edge is Some,
        ensures
            e == old(self)@.binding_edge->0,
            final(self)@ == (ModelManagerView { binding_edge: None, ..old(self)@ }),
    {
        self.binding_edge_opt.take().unwrap()
    }

    /// Records the controls of a model transform.
    pub fn register_model_transform_controls(&mut self, model_transform_entity: u64, data: ModelTransformData)
        requires
            old(self).wf(),
            !old(self)@.model_transforms.contains_key(model_transform_entity),
        ensures
            final(self).wf(),
            final(self)@ == old(self)@.registered(model_transform_entity, data),
    {
        let ghost before = self@;
        self.model_transforms.insert(model_transform_entity, data);
        self.edge_2d_to_model_transform.insert(data.edge_2d_entity, model_transform_entity);
        let f = data.owning_file_entity;
        let mut set = match self.file_to_model_transforms.remove(&f) {
            Some(s) => s,
            None => IdSet::new(),
        };
        set.insert(model_transform_entity);
        self.file_to_model_transforms.insert(f, set);
        let ghost new_set = if before.file_to_model_transforms.contains_key(f) {
            before.file_to_model_transforms[f].insert(model_transform_entity)
        } else {
            set![model_transform_entity]
        };
        assert(self@.file_to_model_transforms =~= before.file_to_model_transforms.insert(f, new_set));
        assert(new_set.contains(model_transform_entity));
    }

    pub fn edge_2d_has_model_transform(&self, edge_2d_entity: u64) -> (r: bool)
        ensures
            r == self@.edge_2d_to_model_transform.contains_key(edge_2d_entity),
    {
        self.edge_2d_to_model_transform.contains_key(&edge_2d_entity)
    }

    pub fn model_transform_from_edge_2d(&self, edge_2d_entity: u64) -> (r: Option<u64>)
        ensures
            r == (if self@.edge_2d_to_model_transform.contains_key(edge_2d_entity) {
                Some(self@.edge_2d_to_model_transform[edge_2d_entity])
            } else {
                None
            }),
    {
        match self.edge_2d_to_model_transform.get(&edge_2d_entity) {
            Some(t) => Some(*t),
            None => None,
        }
    }

    /// Forgets a registered model transform and returns its controls; its
    /// file is forgotten once it owns no transform.
    pub fn deregister_model_transform_controls(&mut self, model_transform_entity: u64) -> (d: ModelTransformData)
        requires
            old(self).wf(),
            old(self)@.model_transforms.contains_key(model_transform_entity),
        ensures
            final(self).wf(),
            d == old(self)@.model_transforms[model_transform_entity],
            final(self)@ == old(self)@.deregistered(model_transform_entity),
    {
        let ghost before = self@;
        let d = self.model_transforms.remove(&model_transform_entity).unwrap();
        self.edge_2d_to_model_transform.remove(&d.edge_2d_entity);
        let f = d.owning_file_entity;
        let mut set = self.file_to_model_transforms.remove(&f).unwrap();
        set.remove(model_transform_entity);
        if !set.is_empty() {
            self.file_to_model_transforms.insert(f, set);
        }
        let ghost rest = before.file_to_model_transforms[f].remove(model_transform_entity);
        assert(self@.file_to_model_transforms =~= if rest.is_empty() {
            before.file_to_model_transforms.remove(f)
        } else {
            before.file_to_model_transforms.insert(f, rest)
        });
        assert forall|g: u64, t: u64| #[trigger] self@.file_to_model_transforms.contains_key(g)
            && #[trigger] self@.file_to_model_transforms[g].contains(t) implies self@.model_transforms.contains_key(t)
                && self@.model_transforms[t].owning_file_entity == g by {
            assert(before.file_to_model_transforms.contains_key(g));
            assert(before.file_to_model_transforms[g].contains(t));
        }
        d
    }

    /// The 3d handles (translation, rotation, scale) of the transforms owned
    /// by `file_entity`, three per transform, in the order the file lists
    /// its transforms.
    pub fn model_transform_3d_vertices(&self, file_entity: u64) -> (r: Vec<u64>)
        requires
            self.wf(),
        ensures
            !self@.file_to_model_transforms.contains_key(file_entity) ==> r@.len() == 0,
            self@.file_to_model_transforms.contains_key(file_entity) ==> exists|ts: Seq<u64>| {
                &&& ts.to_set() == self@.file_to_model_transforms[file_entity]
                &&& r@.len() == 3 * ts.len()
                &&& forall|i: int| 0 <= i < ts.len() ==> {
                    let d = #[trigger] self@.model_transforms[ts[i]];
                    &&& r@[3 * i] == d.translation_entity_3d
                    &&& r@[3 * i + 1] == d.rotation_entity_3d
                    &&& r@[3 * i + 2] == d.scale_entity_3d
                }
            },
    {
        let mut vertices: Vec<u64> = Vec::new();
        match self.file_to_model_transforms.get(&file_entity) {
            None => {},
            Some(set) => {
                proof {
                    set.lemma_elements();
                }
                let ghost ts = set.elements();
                let mut i: usize = 0;
                while i < set.len()
                    invariant
                        i <= ts.len(),
                        ts == set.elements(),
                        ts.to_set() == set@,
                        set@ == self@.file_to_model_transforms[file_entity],
                        self@.file_to_model_transforms.contains_key(file_entity),
                        self.wf(),
                        vertices@.len() == 3 * i,
                        forall|j: int| 0 <= j < i ==> {
                            let d = #[trigger] self@.model_transforms[ts[j]];
                            &&& vertices@[3 * j] == d.translation_entity_3d
                            &&& vertices@[3 * j + 1] == d.rotation_entity_3d
                            &&& vertices@[3 * j + 2] == d.scale_entity_3d
                        },
                    decreases ts.len() - i,
                {
                    let t = set.get(i);
                    proof {
                        assert(self@.file_to_model_transforms[file_entity].contains(t));
                    }
                    let d = self.model_transforms.get(&t).unwrap();
                    vertices.push(d.translation_entity_3d);
                    vertices.push(d.rotation_entity_3d);
                    vertices.push(d.scale_entity_3d);
                    i = i + 1;
                }
            },
        }
        vertices
    }
}

impl Default for ModelManager {
    fn default() -> (m: Self)
        ensures
            m.wf(),
            m@.file_to_model_transforms == Map::<u64, Set<u64>>::empty(),
            m@.model_transforms == Map::<u64, ModelTransformData>::empty(),
            m@.edge_2d_to_model_transform == Map::<u64, u64>::empty(),
            m@.binding_edge is None,
    {
        ModelManager::new()
    }
}

} // verus!
