use vstd::prelude::*;

verus! {

/// Whether a project entry is a file or a directory.
#[derive(Clone, Copy, PartialEq, Eq, Structural, Debug)]
pub enum EntryKind {
    File,
    Directory,
}

/// An entry of the project's file tree, with its children once they are
/// known.
pub struct FileTree {
    pub entity: u64,
    pub name: String,
    pub kind: EntryKind,
    pub children: Option<Vec<FileTree>>,
}

impl FileTree {
    /// An entry whose children are not known yet.
    pub fn new(entity: u64, name: String, kind: EntryKind) -> (t: Self)
        ensures
            t.entity == entity,
            t.name == name,
            t.kind == kind,
            t.children is None,
    {
        FileTree { entity, name, kind, children: None }
    }
}

} // verus!
