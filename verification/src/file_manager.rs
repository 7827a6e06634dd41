use std::collections::HashMap;

use vstd::prelude::*;

use crate::file_ext::FileExtension;
use crate::id_set::IdSet;

verus! {

broadcast use vstd::std_specs::hash::group_hash_axioms;

/// What is known of one project file.
pub struct FileData {
    pub file_type: FileExtension,
    pub changelist_entity: Option<u64>,
    pub changelist_children: IdSet,
    /// Files that need this one (an anim file needs its skel file).
    pub file_dependents: IdSet,
    /// Files this one needs.
    pub file_dependencies: IdSet,
}

/// The abstract value of a file's data.
pub struct FileDataView {
    pub file_type: FileExtension,
    pub changelist_entity: Option<u64>,
    pub changelist_children: Set<u64>,
    pub dependents: Set<u64>,
    pub dependencies: Set<u64>,
}

impl View for FileData {
    type V = FileDataView;

    open spec fn view(&self) -> FileDataView {
        FileDataView {
            file_type: self.file_type,
            changelist_entity: self.changelist_entity,
            changelist_children: self.changelist_children@,
            dependents: self.file_dependents@,
            dependencies: self.file_dependencies@,
        }
    }
}

impl FileData {
    pub fn new(file_type: FileExtension) -> (d: Self)
        ensures
            d@ == FileDataView::fresh(file_type),
    {
        FileData {
            file_type,
            changelist_entity: None,
            changelist_children: IdSet::new(),
            file_dependents: IdSet::new(),
            file_dependencies: IdSet::new(),
        }
    }
}

impl FileDataView {
    pub open spec fn fresh(file_type: FileExtension) -> Self {
        FileDataView {
            file_type,
            changelist_entity: None,
            changelist_children: Set::empty(),
            dependents: Set::empty(),
            dependencies: Set::empty(),
        }
    }
}

/// The abstract state of the file manager.
pub struct FileManagerView {
    pub project_root_entity: u64,
    pub files: Map<u64, FileDataView>,
}

impl FileManagerView {
    pub open spec fn with_file(self, file: u64, data: FileDataView) -> Self {
        FileManagerView { files: self.files.insert(file, data), ..self }
    }

    pub open spec fn changelist_inserted(self, file_opt: Option<u64>, parent_opt: Option<u64>, cl: u64) -> Self {
        let after_file = match file_opt {
            Some(f) => self.with_file(f, FileDataView { changelist_entity: Some(cl), ..self.files[f] }),
            None => self,
        };
        match parent_opt {
            Some(p) => after_file.with_file(
                p,
                FileDataView { changelist_children: after_file.files[p].changelist_children.insert(cl), ..after_file.files[p] },
            ),
            None => after_file,
        }
    }

    pub open spec fn dependency_added(self, file: u64, dep: u64) -> Self {
        let a = self.with_file(file, FileDataView { dependencies: self.files[file].dependencies.insert(dep), ..self.files[file] });
        a.with_file(dep, FileDataView { dependents: a.files[dep].dependents.insert(file), ..a.files[dep] })
    }

    pub open spec fn dependency_removed(self, file: u64, dep: u64) -> Self {
        let a = self.with_file(file, FileDataView { dependencies: self.files[file].dependencies.remove(dep), ..self.files[file] });
        a.with_file(dep, FileDataView { dependents: a.files[dep].dependents.remove(file), ..a.files[dep] })
    }

    /// `dep` is a registered dependency of `file`, of the given type.
    pub open spec fn has_dependency_of_type(self, file: u64, dep: u64, file_type: FileExtension) -> bool {
        &&& self.files[file].dependencies.contains(dep)
        &&& self.files[dep].file_type == file_type
    }

    /// Every dependency of a known file is a known file.
    pub open spec fn dependencies_known(self, file: u64) -> bool {
        forall|d: u64| #[trigger] self.files[file].dependencies.contains(d) ==> self.files.contains_key(d)
    }

    /// Dependencies and dependents mirror each other among the known files.
    pub open spec fn consistent(self) -> bool {
        forall|a: u64, b: u64|
            self.files.contains_key(a) && self.files.contains_key(b) ==> (#[trigger] self.files[a].dependencies.contains(b)
                <==> #[trigger] self.files[b].dependents.contains(a))
    }
}

/// The project's files, their changelist entries and their dependencies.
pub struct FileManager {
    pub project_root_entity: u64,
    file_entities: HashMap<u64, FileData>,
}

impl View for FileManager {
    type V = FileManagerView;

    closed spec fn view(&self) -> FileManagerView {
        FileManagerView {
            project_root_entity: self.project_root_entity,
            files: self.file_entities@.map_values(|d: FileData| d@),
        }
    }
}

impl FileManager {
    pub fn new(project_root_entity: u64) -> (m: Self)
        ensures
            m@ == (FileManagerView { project_root_entity, files: Map::empty() }),
    {
        let m = FileManager { project_root_entity, file_entities: HashMap::new() };
        assert(m@.files =~= Map::<u64, FileDataView>::empty());
        m
    }

    /// Registers a newly created file.
    pub fn on_file_create(&mut self, file_entity: u64, file_type: FileExtension)
        ensures
            final(self)@ == old(self)@.with_file(file_entity, FileDataView::fresh(file_type)),
    {
        let ghost before = self@;
        self.file_entities.insert(file_entity, FileData::new(file_type));
        assert(self@.files =~= before.files.insert(file_entity, FileDataView::fresh(file_type)));
    }

    /// Forgets a deleted file.
    pub fn on_file_delete(&mut self, file_entity: u64)
        ensures
            final(self)@ == (FileManagerView { files: old(self)@.files.remove(file_entity), ..old(self)@ }),
    {
        let ghost before = self@;
        self.file_entities.remove(&file_entity);
        assert(self@.files =~= before.files.remove(file_entity));
    }

    pub fn has_file(&self, file_entity: u64) -> (r: bool)
        ensures
            r == self@.files.contains_key(file_entity),
    {
        self.file_entities.contains_key(&file_entity)
    }

    /// The type of a known file.
    pub fn get_file_type(&self, file_entity: u64) -> (t: FileExtension)
        requires
            self@.files.contains_key(file_entity),
        ensures
            t == self@.files[file_entity].file_type,
    {
        self.file_entities.get(&file_entity).unwrap().file_type
    }

    /// Records the changelist entity of a file and of its parent directory;
    /// both must be known when given.
    pub fn insert_changelist_entry(&mut self, file_entity_opt: Option<u64>, parent_entity_opt: Option<u64>, cl_entity: u64)
        requires
            file_entity_opt matches Some(f) ==> old(self)@.files.contains_key(f),
            parent_entity_opt matches Some(p) ==> old(self)@.files.contains_key(p),
        ensures
            final(self)@ == old(self)@.changelist_inserted(file_entity_opt, parent_entity_opt, cl_entity),
    {
        let ghost before = self@;
        if let Some(file_entity) = file_entity_opt {
            let mut data = self.file_entities.remove(&file_entity).unwrap();
            data.changelist_entity = Some(cl_entity);
            self.file_entities.insert(file_entity, data);
        }
        let ghost mid = self@;
        assert(mid.files =~= (match file_entity_opt {
            Some(f) => before.with_file(f, FileDataView { changelist_entity: Some(cl_entity), ..before.files[f] }),
            None => before,
        }).files);
        if let Some(parent_entity) = parent_entity_opt {
            let mut data = self.file_entities.remove(&parent_entity).unwrap();
            data.changelist_children.insert(cl_entity);
            self.file_entities.insert(parent_entity, data);
        }
        assert(self@.files =~= before.changelist_inserted(file_entity_opt, parent_entity_opt, cl_entity).files);
    }

    /// The changelist entity of a file, if it is known and has one.
    pub fn get_file_changelist_entity(&self, file_entity: u64) -> (r: Option<u64>)
        ensures
            r == (if self@.files.contains_key(file_entity) { self@.files[file_entity].changelist_entity } else { None }),
    {
        match self.file_entities.get(&file_entity) {
            Some(data) => data.changelist_entity,
            None => None,
        }
    }

    /// The changelist entities below a known file (directory).
    pub fn get_file_changelist_children(&self, file_entity: u64) -> (r: Option<Vec<u64>>)
        ensures
            match r {
                Some(v) => self@.files.contains_key(file_entity) && v@.to_set() == self@.files[file_entity].changelist_children,
                None => !self@.files.contains_key(file_entity),
            },
    {
        match self.file_entities.get(&file_entity) {
            Some(data) => {
                let v = data.changelist_children.to_vec();
                proof {
                    data.changelist_children.lemma_elements();
                }
                Some(v)
            },
            None => None,
        }
    }

    /// A dependency of the given type of a known file whose dependencies are
    /// all known, if it has one.
    pub fn file_get_dependency(&self, file_entity: u64, file_type: FileExtension) -> (r: Option<u64>)
        requires
            self@.files.contains_key(file_entity),
            self@.dependencies_known(file_entity),
        ensures
            match r {
                Some(d) => self@.has_dependency_of_type(file_entity, d, file_type),
                None => forall|d: u64| !self@.has_dependency_of_type(file_entity, d, file_type),
            },
    {
        let data = self.file_entities.get(&file_entity).unwrap();
        let deps = &data.file_dependencies;
        proof {
            deps.lemma_elements();
        }
        let mut i: usize = 0;
        while i < deps.len()
            invariant
                i <= deps.elements().len(),
                deps@ == self@.files[file_entity].dependencies,
                deps.elements().to_set() == deps@,
                self@.dependencies_known(file_entity),
                self@.files.contains_key(file_entity),
                forall|j: int| 0 <= j < i ==> self@.files[#[trigger] deps.elements()[j]].file_type != file_type,
            decreases deps.elements().len() - i,
        {
            let d = deps.get(i);
            let dep_type = self.file_entities.get(&d).unwrap().file_type;
            if dep_type == file_type {
                return Some(d);
            }
            i = i + 1;
        }
        proof {
            assert forall|d: u64| !self@.has_dependency_of_type(file_entity, d, file_type) by {
                if self@.files[file_entity].dependencies.contains(d) {
                    assert(deps.elements().contains(d));
                    let k = choose|k: int| 0 <= k < deps.elements().len() && deps.elements()[k] == d;
                }
            }
        }
        None
    }

    /// Whether a known file (whose dependencies are all known) depends on a
    /// file of the given type.
    pub fn file_has_dependency(&self, file_entity: u64, file_type: FileExtension) -> (r: bool)
        requires
            self@.files.contains_key(file_entity),
            self@.dependencies_known(file_entity),
        ensures
            r == exists|d: u64| self@.has_dependency_of_type(file_entity, d, file_type),
    {
        let found = self.file_get_dependency(file_entity, file_type);
        match found {
            Some(d) => {
                assert(self@.has_dependency_of_type(file_entity, d, file_type));
                true
            },
            None => false,
        }
    }

    /// Makes `file_entity` depend on `dependency_file_entity`; both are known
    /// and not linked yet.
    pub fn file_add_dependency(&mut self, file_entity: u64, dependency_file_entity: u64)
        requires
            old(self)@.files.contains_key(file_entity),
            old(self)@.files.contains_key(dependency_file_entity),
            !old(self)@.files[file_entity].dependencies.contains(dependency_file_entity),
            !old(self)@.files[dependency_file_entity].dependents.contains(file_entity),
        ensures
            final(self)@ == old(self)@.dependency_added(file_entity, dependency_file_entity),
    {
        let ghost before = self@;
        let mut data = self.file_entities.remove(&file_entity).unwrap();
        data.file_dependencies.insert(dependency_file_entity);
        self.file_entities.insert(file_entity, data);
        let ghost mid = self@;
        assert(mid.files =~= before.with_file(
            file_entity,
            FileDataView { dependencies: before.files[file_entity].dependencies.insert(dependency_file_entity), ..before.files[file_entity] },
        ).files);
        let mut dep_data = self.file_entities.remove(&dependency_file_entity).unwrap();
        dep_data.file_dependents.insert(file_entity);
        self.file_entities.insert(dependency_file_entity, dep_data);
        assert(self@.files =~= before.dependency_added(file_entity, dependency_file_entity).files);
    }

    /// Undoes a dependency of `file_entity` on `dependency_file_entity`; both
    /// are known and linked.
    pub fn file_remove_dependency(&mut self, file_entity: u64, dependency_file_entity: u64)
        requires
            old(self)@.files.contains_key(file_entity),
            old(self)@.files.contains_key(dependency_file_entity),
            old(self)@.files[file_entity].dependencies.contains(dependency_file_entity),
            old(self)@.files[dependency_file_entity].dependents.contains(file_entity),
        ensures
            final(self)@ == old(self)@.dependency_removed(file_entity, dependency_file_entity),
    {
        let ghost before = self@;
        let mut data = self.file_entities.remove(&file_entity).unwrap();
        data.file_dependencies.remove(dependency_file_entity);
        self.file_entities.insert(file_entity, data);
        let ghost mid = self@;
        assert(mid.files =~= before.with_file(
            file_entity,
            FileDataView { dependencies: before.files[file_entity].dependencies.remove(dependency_file_entity), ..before.files[file_entity] },
        ).files);
        let mut dep_data = self.file_entities.remove(&dependency_file_entity).unwrap();
        dep_data.file_dependents.remove(file_entity);
        self.file_entities.insert(dependency_file_entity, dep_data);
        assert(self@.files =~= before.dependency_removed(file_entity, dependency_file_entity).files);
    }
}

/// Adding a dependency keeps dependencies and dependents mirrored, and so
/// does removing one.
pub proof fn lemma_dependency_changes_keep_consistency(s: FileManagerView, file: u64, dep: u64)
    requires
        s.consistent(),
        s.files.contains_key(file),
        s.files.contains_key(dep),
    ensures
        s.dependency_added(file, dep).consistent(),
        s.dependency_removed(file, dep).consistent(),
{
    let a = s.dependency_added(file, dep);
    assert forall|x: u64, y: u64| a.files.contains_key(x) && a.files.contains_key(y) implies (#[trigger] a.files[x].dependencies.contains(y)
        <==> #[trigger] a.files[y].dependents.contains(x)) by {
        assert(s.files[x].dependencies.contains(y) <==> s.files[y].dependents.contains(x));
    }
    let r = s.dependency_removed(file, dep);
    assert forall|x: u64, y: u64| r.files.contains_key(x) && r.files.contains_key(y) implies (#[trigger] r.files[x].dependencies.contains(y)
        <==> #[trigger] r.files[y].dependents.contains(x)) by {
        assert(s.files[x].dependencies.contains(y) <==> s.files[y].dependents.contains(x));
    }
}

/// Removing a dependency that was just added gives back the files as they
/// were, when the two files were not linked before.
pub proof fn lemma_add_then_remove_dependency(s: FileManagerView, file: u64, dep: u64)
    requires
        s.files.contains_key(file),
        s.files.contains_key(dep),
        !s.files[file].dependencies.contains(dep),
        !s.files[dep].dependents.contains(file),
    ensures
        s.dependency_added(file, dep).dependency_removed(file, dep) == s,
        s.dependency_added(file, dep).has_dependency_of_type(file, dep, s.files[dep].file_type),
{
    let a = s.dependency_added(file, dep);
    let r = a.dependency_removed(file, dep);
    assert(a.files[file].dependencies.remove(dep) =~= s.files[file].dependencies);
    assert(r.files[dep].dependents =~= s.files[dep].dependents);
    if file == dep {
        assert(r.files[file].dependencies =~= s.files[file].dependencies);
        assert(r.files[file] == s.files[file]);
    } else {
        assert(r.files[file].dependencies =~= s.files[file].dependencies);
        assert(r.files[file] == s.files[file]);
        assert(r.files[dep] == s.files[dep]);
    }
    assert(r.files =~= s.files);
}

/// The entry `x` of the file tree and all its ancestors are known, and it has
/// at most `depth` ancestors. `entries` gives each known entry's name and
/// parent directory.
pub open spec fn rooted_within(entries: Map<u64, (String, Option<u64>)>, x: u64, depth: nat) -> bool
    decreases depth,
{
    &&& entries.contains_key(x)
    &&& match entries[x].1 {
        None => true,
        Some(p) => depth > 0 && rooted_within(entries, p, (depth - 1) as nat),
    }
}

/// The path of the entry `x`: the names of its ancestors and its own,
/// outermost first, separated by `/` (looking at most `depth` levels up).
pub open spec fn entry_path(entries: Map<u64, (String, Option<u64>)>, x: u64, depth: nat) -> Seq<char>
    decreases depth,
{
    match entries[x].1 {
        Some(p) => if depth > 0 {
            entry_path(entries, p, (depth - 1) as nat) + seq!['/'] + entries[x].0@
        } else {
            entries[x].0@
        },
        None => entries[x].0@,
    }
}

/// The path of an entry does not depend on how far up one is willing to
/// look, once that reaches its outermost ancestor.
pub proof fn lemma_entry_path_depth(entries: Map<u64, (String, Option<u64>)>, x: u64, d1: nat, d2: nat)
    requires
        rooted_within(entries, x, d1),
        rooted_within(entries, x, d2),
    ensures
        entry_path(entries, x, d1) == entry_path(entries, x, d2),
    decreases d1,
{
    if let Some(p) = entries[x].1 {
        lemma_entry_path_depth(entries, p, (d1 - 1) as nat, (d2 - 1) as nat);
    }
}

/// The path of the directory that holds `file_entity`: its ancestors' names,
/// outermost first, separated by `/`; empty at the top of the tree. The file
/// and every ancestor must be known in `entries`, with no cycle.
pub fn get_full_path(entries: &HashMap<u64, (String, Option<u64>)>, file_entity: u64) -> (path: String)
    requires
        exists|d: nat| rooted_within(entries@, file_entity, d),
    ensures
        match entries@[file_entity].1 {
            None => path@.len() == 0,
            Some(parent) => forall|d: nat| rooted_within(entries@, parent, d) ==> path@ == entry_path(entries@, parent, d),
        },
{
    let ghost m = entries@;
    let ghost d0: nat = choose|d: nat| rooted_within(m, file_entity, d);
    let mut path = String::new();
    let parent_opt = entries.get(&file_entity).unwrap().1;
    match parent_opt {
        None => {
            path
        },
        Some(parent) => {
            let ghost dp: nat = (d0 - 1) as nat;
            let mut cur = parent;
            let ghost mut dc: nat = dp;
            loop
                invariant
                    m == entries@,
                    m.contains_key(file_entity),
                    m[file_entity].1 == Some(parent),
                    rooted_within(m, parent, dp),
                    rooted_within(m, cur, dc),
                    entry_path(m, parent, dp) == entry_path(m, cur, dc) + path@,
                decreases dc,
            {
                let entry = entries.get(&cur).unwrap();
                let mut next = entry.0.clone();
                next.append(path.as_str());
                match entry.1 {
                    Some(p) => {
                        let mut with_slash = String::new();
                        let slash = "/";
                        proof {
                            reveal_strlit("/");
                        }
                        with_slash.append(slash);
                        with_slash.append(next.as_str());
                        path = with_slash;
                        proof {
                            assert(entry_path(m, cur, dc) =~= entry_path(m, p, (dc - 1) as nat) + seq!['/'] + m[cur].0@);
                            assert(entry_path(m, parent, dp) =~= entry_path(m, p, (dc - 1) as nat) + path@);
                            dc = (dc - 1) as nat;
                        }
                        cur = p;
                    },
                    None => {
                        path = next;
                        proof {
                            assert(entry_path(m, parent, dp) =~= path@);
                            assert forall|d: nat| rooted_within(m, parent, d) implies path@ == entry_path(m, parent, d) by {
                                lemma_entry_path_depth(m, parent, d, dp);
                            }
                        }
                        return path;
                    },
                }
            }
        },
    }
}

} // verus!
