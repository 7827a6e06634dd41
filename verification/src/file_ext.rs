use vstd::prelude::*;

verus! {

/// The kind of an editable asset file, by its extension.
#[derive(Clone, Copy, PartialEq, Eq, Structural, Debug)]
pub enum FileExtension {
    Unknown,
    Skel,
    Mesh,
    Anim,
    Palette,
    Skin,
    Model,
    Scene,
    Icon,
}

} // verus!
