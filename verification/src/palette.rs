use std::collections::HashMap;

use vstd::prelude::*;
use vstd::string::*;

verus! {

broadcast use vstd::std_specs::hash::group_hash_axioms;

/// `list` grown with empty slots so that `index` is a valid slot.
pub open spec fn padded(list: Seq<Option<u64>>, index: nat) -> Seq<Option<u64>> {
    if list.len() <= index {
        list + Seq::new((index + 1 - list.len()) as nat, |i: int| None::<u64>)
    } else {
        list
    }
}

/// `list` without its trailing empty slots.
pub open spec fn trim_trailing_none(list: Seq<Option<u64>>) -> Seq<Option<u64>>
    decreases list.len(),
{
    if list.len() > 0 && list.last() is None {
        trim_trailing_none(list.drop_last())
    } else {
        list
    }
}

/// The abstract state of the palette colors: for each palette file, its color
/// slots; for each color entity, its file.
pub struct PaletteView {
    pub selected_color_index: nat,
    pub file_colors: Map<u64, Seq<Option<u64>>>,
    pub colors: Map<u64, u64>,
}

impl PaletteView {
    /// The slots of `file` (empty when it has none).
    pub open spec fn slots(self, file: u64) -> Seq<Option<u64>> {
        if self.file_colors.contains_key(file) {
            self.file_colors[file]
        } else {
            Seq::empty()
        }
    }

    /// Every stored slot list is non-empty and ends with a color.
    pub open spec fn well_formed(self) -> bool {
        forall|f: u64| #[trigger] self.file_colors.contains_key(f) ==> {
            &&& self.file_colors[f].len() > 0
            &&& self.file_colors[f].last() is Some
        }
    }

    pub open spec fn registered(self, file: u64, color: u64, index: nat) -> Self {
        PaletteView {
            file_colors: self.file_colors.insert(file, padded(self.slots(file), index).update(index as int, Some(color))),
            colors: self.colors.insert(color, file),
            ..self
        }
    }

    /// The state after `color` was taken out of slot `index` of `file`, when
    /// that slot held it.
    pub open spec fn deregistered(self, file: u64, color: u64, index: nat) -> Self {
        if self.file_colors.contains_key(file) && index < self.file_colors[file].len()
            && self.file_colors[file][index as int] is Some {
            let trimmed = trim_trailing_none(self.file_colors[file].update(index as int, None));
            PaletteView {
                file_colors: if trimmed.len() == 0 {
                    self.file_colors.remove(file)
                } else {
                    self.file_colors.insert(file, trimmed)
                },
                colors: self.colors.remove(color),
                ..self
            }
        } else {
            self
        }
    }

    /// The color in slot `index` of `file`, if any.
    pub open spec fn color_at(self, file: u64, index: nat) -> Option<u64> {
        if self.file_colors.contains_key(file) && index < self.file_colors[file].len() {
            self.file_colors[file][index as int]
        } else {
            None
        }
    }
}

/// Which palette color entities belong to which palette file, by slot.
pub struct PaletteManager {
    selected_color_index: usize,
    file_colors: HashMap<u64, Vec<Option<u64>>>,
    colors: HashMap<u64, u64>,
}

impl View for PaletteManager {
    type V = PaletteView;

    closed spec fn view(&self) -> PaletteView {
        PaletteView {
            selected_color_index: self.selected_color_index as nat,
            file_colors: self.file_colors@.map_values(|v: Vec<Option<u64>>| v@),
            colors: self.colors@,
        }
    }
}

impl Default for PaletteManager {
    fn default() -> (p: Self)
        ensures
            p@.selected_color_index == 0,
            p@.file_colors == Map::<u64, Seq<Option<u64>>>::empty(),
            p@.colors == Map::<u64, u64>::empty(),
    {
        let p = PaletteManager { selected_color_index: 0, file_colors: HashMap::new(), colors: HashMap::new() };
        assert(p@.file_colors =~= Map::<u64, Seq<Option<u64>>>::empty());
        p
    }
}

impl PaletteManager {
    pub fn entity_is_color(&self, entity: u64) -> (r: bool)
        ensures
            r == self@.colors.contains_key(entity),
    {
        self.colors.contains_key(&entity)
    }

    /// Puts `color_entity` in slot `color_index` of `file_entity`, growing the
    /// file's slots with empty ones as needed.
    pub fn register_color(&mut self, file_entity: u64, color_entity: u64, color_index: usize)
        requires
            color_index < usize::MAX,
        ensures
            final(self)@ == old(self)@.registered(file_entity, color_entity, color_index as nat),
    {
        let ghost old_view = self@;
        let mut list = match self.file_colors.remove(&file_entity) {
            Some(l) => l,
            None => Vec::new(),
        };
        assert(list@ == old_view.slots(file_entity));
        if list.len() <= color_index {
            let ghost before = list@;
            while list.len() <= color_index
                invariant
                    color_index < usize::MAX,
                    before.len() <= color_index,
                    before.len() <= list@.len() <= color_index + 1,
                    list@ == before + Seq::new((list@.len() - before.len()) as nat, |i: int| None::<u64>),
                decreases color_index + 1 - list@.len(),
            {
                list.push(None);
            }
            assert(list@ =~= padded(before, color_index as nat));
        }
        list.set(color_index, Some(color_entity));
        self.file_colors.insert(file_entity, list);
        self.colors.insert(color_entity, file_entity);
        assert(self@.file_colors =~= old_view.registered(file_entity, color_entity, color_index as nat).file_colors);
    }

    /// Empties slot `color_index` of `file_entity`, which must hold
    /// `color_entity` if it holds any color; trailing empty slots are dropped,
    /// and a file without colors is forgotten.
    pub fn deregister_color(&mut self, file_entity: u64, color_entity: u64, color_index: usize)
        requires
            old(self)@.color_at(file_entity, color_index as nat) is Some
                ==> old(self)@.color_at(file_entity, color_index as nat) == Some(color_entity),
        ensures
            final(self)@ == old(self)@.deregistered(file_entity, color_entity, color_index as nat),
    {
        let ghost old_view = self@;
        let removed = self.file_colors.remove(&file_entity);
        let Some(mut list) = removed else {
            assert(self@.file_colors =~= old_view.file_colors);
            return;
        };
        if color_index >= list.len() || list[color_index].is_none() {
            self.file_colors.insert(file_entity, list);
            assert(self@.file_colors =~= old_view.file_colors);
            return;
        }
        list.set(color_index, None);
        let ghost cleared = list@;
        while list.len() > 0 && list[list.len() - 1].is_none()
            invariant
                trim_trailing_none(list@) == trim_trailing_none(cleared),
            decreases list@.len(),
        {
            list.pop();
        }
        assert(list@ == trim_trailing_none(cleared));
        if list.len() != 0 {
            self.file_colors.insert(file_entity, list);
        }
        self.colors.remove(&color_entity);
        assert(self@.file_colors =~= old_view.deregistered(file_entity, color_entity, color_index as nat).file_colors);
    }

    pub fn select_color(&mut self, color_index: usize)
        ensures
            final(self)@ == (PaletteView { selected_color_index: color_index as nat, ..old(self)@ }),
    {
        self.selected_color_index = color_index;
    }

    pub fn selected_color_index(&self) -> (r: usize)
        ensures
            r as nat == self@.selected_color_index,
    {
        self.selected_color_index
    }

    /// The color entity in slot `color_index` of `file_entity`.
    pub fn get_color_entity(&self, file_entity: u64, color_index: usize) -> (r: Option<u64>)
        ensures
            r == self@.color_at(file_entity, color_index as nat),
    {
        match self.file_colors.get(&file_entity) {
            Some(list) => {
                if color_index < list.len() {
                    list[color_index]
                } else {
                    None
                }
            },
            None => None,
        }
    }
}

proof fn lemma_trim_nones(l: Seq<Option<u64>>, k: nat)
    ensures
        trim_trailing_none(l + Seq::new(k, |i: int| None::<u64>)) == trim_trailing_none(l),
    decreases k,
{
    let ext = l + Seq::new(k, |i: int| None::<u64>);
    if k > 0 {
        assert(ext.drop_last() =~= l + Seq::new((k - 1) as nat, |i: int| None::<u64>));
        lemma_trim_nones(l, (k - 1) as nat);
    } else {
        assert(ext =~= l);
    }
}

/// A registered color is found in its slot.
pub proof fn lemma_register_then_get(s: PaletteView, file: u64, color: u64, index: nat)
    ensures
        s.registered(file, color, index).color_at(file, index) == Some(color),
        s.registered(file, color, index).colors[color] == file,
{
}

/// Registering and deregistering keep every stored slot list non-empty and
/// ending with a color.
pub proof fn lemma_register_keeps_well_formed(s: PaletteView, file: u64, color: u64, index: nat)
    requires
        s.well_formed(),
    ensures
        s.registered(file, color, index).well_formed(),
        s.deregistered(file, color, index).well_formed(),
{
    let r = s.registered(file, color, index);
    assert forall|f: u64| #[trigger] r.file_colors.contains_key(f) implies r.file_colors[f].len() > 0
        && r.file_colors[f].last() is Some by {
        if f == file {
            let p = padded(s.slots(file), index);
            assert(p.len() > index);
        }
    }
    let d = s.deregistered(file, color, index);
    if s.file_colors.contains_key(file) && index < s.file_colors[file].len() && s.file_colors[file][index as int] is Some {
        let t = trim_trailing_none(s.file_colors[file].update(index as int, None));
        lemma_trim_ends_with_color(s.file_colors[file].update(index as int, None));
        assert forall|f: u64| #[trigger] d.file_colors.contains_key(f) implies d.file_colors[f].len() > 0
            && d.file_colors[f].last() is Some by {
            if f == file {
                assert(d.file_colors[f] == t);
            }
        }
    }
}

proof fn lemma_trim_ends_with_color(l: Seq<Option<u64>>)
    ensures
        trim_trailing_none(l).len() == 0 || trim_trailing_none(l).last() is Some,
    decreases l.len(),
{
    if l.len() > 0 && l.last() is None {
        lemma_trim_ends_with_color(l.drop_last());
    }
}

/// Deregistering a color from the slot it was just registered in gives back
/// the palette as it was, when that slot was empty before and the color was
/// not registered anywhere.
pub proof fn lemma_register_then_deregister(s: PaletteView, file: u64, color: u64, index: nat)
    requires
        s.well_formed(),
        s.color_at(file, index) is None,
        !s.colors.contains_key(color),
    ensures
        s.registered(file, color, index).deregistered(file, color, index) == s,
{
    let l = s.slots(file);
    let r = s.registered(file, color, index);
    let p = padded(l, index);
    let updated = p.update(index as int, Some(color));
    assert(r.file_colors[file] == updated);
    assert(index < updated.len());
    let cleared = updated.update(index as int, None);
    if l.len() <= index {
        let k = (index + 1 - l.len()) as nat;
        assert(cleared =~= l + Seq::new(k, |i: int| None::<u64>));
        lemma_trim_nones(l, k);
    } else {
        assert(cleared =~= l);
    }
    assert(trim_trailing_none(l) == l);
    let d = r.deregistered(file, color, index);
    assert(d.colors =~= s.colors);
    if s.file_colors.contains_key(file) {
        assert(d.file_colors =~= s.file_colors);
    } else {
        assert(l.len() == 0);
        assert(d.file_colors =~= s.file_colors);
    }
}

} // verus!
