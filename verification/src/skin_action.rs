use vstd::prelude::*;
use std::collections::HashMap;
use crate::action_stack::Action;
use crate::canvas::Canvas;
use crate::input::{InputManager, InputManagerView};
use crate::shape_data::CanvasShape;
use crate::shape_graph::{FaceManager, FaceManagerView};

verus! {

broadcast use vstd::std_specs::hash::group_hash_axioms;

/// An undoable edit of a skin file.
#[derive(Clone, Copy, PartialEq, Eq, Debug)]
pub enum SkinAction {
    /// the 2d face to select, or none to deselect
    SelectFace(Option<(u64, CanvasShape)>),
    /// the 2d face, its palette color before, and the color to give it (none
    /// removes its color)
    EditColor(u64, Option<u64>, Option<u64>),
    /// the new background palette color
    EditBckgColor(u64),
}

#[derive(Clone, Copy, PartialEq, Eq, Structural, Debug)]
pub enum SkinActionType {
    SelectFace,
    EditColor,
    EditBckgColor,
}

impl SkinAction {
    pub open spec fn spec_get_type(&self) -> SkinActionType {
        match self {
            SkinAction::SelectFace(_) => SkinActionType::SelectFace,
            SkinAction::EditColor(_, _, _) => SkinActionType::EditColor,
            SkinAction::EditBckgColor(_) => SkinActionType::EditBckgColor,
        }
    }

    pub fn get_type(&self) -> (t: SkinActionType)
        ensures
            t == self.spec_get_type(),
    {
        match self {
            SkinAction::SelectFace(_) => SkinActionType::SelectFace,
            SkinAction::EditColor(_, _, _) => SkinActionType::EditColor,
            SkinAction::EditBckgColor(_) => SkinActionType::EditBckgColor,
        }
    }
}

/// What editing a face's color does to its color entity.
#[derive(Clone, Copy, PartialEq, Eq, Structural, Debug)]
pub enum ColorEdit {
    /// point the face's color entity at this palette color
    SetPaletteColor(u64),
    /// despawn the face's color entity
    RemoveColor,
    Nothing,
}

/// The effect of `EditColor(face, old, new)`, and the action that undoes it:
/// a new color is set; with no new color, an old one is removed.
pub open spec fn edit_color_plan(face_2d: u64, old_color: Option<u64>, new_color: Option<u64>) -> (ColorEdit, SkinAction) {
    let edit = match new_color {
        Some(c) => ColorEdit::SetPaletteColor(c),
        None => if old_color is Some {
            ColorEdit::RemoveColor
        } else {
            ColorEdit::Nothing
        },
    };
    (edit, SkinAction::EditColor(face_2d, new_color, old_color))
}

pub fn plan_edit_color(face_2d: u64, old_color: Option<u64>, new_color: Option<u64>) -> (r: (ColorEdit, SkinAction))
    ensures
        r == edit_color_plan(face_2d, old_color, new_color),
        color_after(old_color, r.0) == new_color,
        new_color matches Some(c) ==> r.0 == ColorEdit::SetPaletteColor(c),
        r.1 == SkinAction::EditColor(face_2d, new_color, old_color),
{
    let edit = match new_color {
        Some(c) => ColorEdit::SetPaletteColor(c),
        None => if old_color.is_some() {
            ColorEdit::RemoveColor
        } else {
            ColorEdit::Nothing
        },
    };
    (edit, SkinAction::EditColor(face_2d, new_color, old_color))
}

/// The palette color a face has once `edit` is applied to a face whose color
/// was `color`.
pub open spec fn color_after(color: Option<u64>, edit: ColorEdit) -> Option<u64> {
    match edit {
        ColorEdit::SetPaletteColor(c) => Some(c),
        ColorEdit::RemoveColor => None,
        ColorEdit::Nothing => color,
    }
}

/// Editing a face's color gives the face the new color, whatever color it
/// had; a new color is always set as that palette color; and the edit that
/// the undo action plans gives the face back its old color.
pub proof fn lemma_edit_color_gives_new_color(face_2d: u64, old_color: Option<u64>, new_color: Option<u64>)
    ensures
        color_after(old_color, edit_color_plan(face_2d, old_color, new_color).0) == new_color,
        new_color matches Some(c) ==> edit_color_plan(face_2d, old_color, new_color).0 == ColorEdit::SetPaletteColor(c),
        ({
            let undo = edit_color_plan(face_2d, old_color, new_color).1;
            undo matches SkinAction::EditColor(f, from, to) && f == face_2d
                && color_after(new_color, edit_color_plan(f, from, to).0) == old_color
        }),
{
}

/// Undoing a color edit and then undoing the undo gives back the first edit.
pub proof fn lemma_edit_color_round_trip(face_2d: u64, old_color: Option<u64>, new_color: Option<u64>)
    ensures
        ({
            let undo = edit_color_plan(face_2d, old_color, new_color).1;
            undo == SkinAction::EditColor(face_2d, new_color, old_color)
            && edit_color_plan(face_2d, new_color, old_color).1 == SkinAction::EditColor(face_2d, old_color, new_color)
        }),
{
}

/// The 3d face of a 2d face, if both are known.
pub open spec fn face_3d_of(fm: FaceManagerView, face_2d: u64) -> Option<u64> {
    if fm.faces_2d.contains_key(face_2d) && fm.has_2d_face(fm.faces_2d[face_2d]) {
        fm.data(fm.faces_2d[face_2d]).entity_3d
    } else {
        None
    }
}

/// A selection that a skin may hold: a face whose 3d face is known.
pub open spec fn selectable_face(fm: FaceManagerView, shape: Option<(u64, CanvasShape)>) -> bool {
    match shape {
        Some((e, s)) => s == CanvasShape::Face && face_3d_of(fm, e) is Some,
        None => true,
    }
}

/// The color entity of the 3d face of the selected 2d face `shape`, where
/// `face_colors` maps each 3d face to its color entity; `None` where nothing
/// is selected or the face has no color.
pub open spec fn color_of_selected(fm: FaceManagerView, face_colors: Map<u64, u64>, shape: Option<(u64, CanvasShape)>) -> Option<u64> {
    match shape {
        Some((e, _)) => match face_3d_of(fm, e) {
            Some(f) => if face_colors.contains_key(f) { Some(face_colors[f]) } else { None },
            None => None,
        },
        None => None,
    }
}

fn color_entity_of(face_manager: &FaceManager, face_colors: &HashMap<u64, u64>, shape: Option<(u64, CanvasShape)>) -> (r: Option<u64>)
    requires
        face_manager.wf(),
    ensures
        r == color_of_selected(face_manager@, face_colors@, shape),
{
    match shape {
        Some((e, _)) => match face_manager.face_entity_2d_to_3d(e) {
            Some(f) => match face_colors.get(&f) {
                Some(c) => Some(*c),
                None => None,
            },
            None => None,
        },
        None => None,
    }
}

/// Selects `target` (a face, or nothing) in a skin: whatever was selected is
/// deselected first. Returns the action that undoes it (selecting what was
/// selected before), the color entity whose authority is to be released (that
/// of the face deselected) and the one whose authority is to be requested
/// (that of the face selected); `face_colors` maps each 3d face to its color
/// entity, and a face with no color gives none.
pub fn select_face(
    input_manager: &mut InputManager,
    canvas: &mut Canvas,
    face_manager: &FaceManager,
    face_colors: &HashMap<u64, u64>,
    target: Option<(u64, CanvasShape)>,
) -> (r: (SkinAction, Option<u64>, Option<u64>))
    requires
        face_manager.wf(),
        selectable_face(face_manager@, old(input_manager)@.selected_shape),
        selectable_face(face_manager@, target),
    ensures
        final(input_manager)@ == (InputManagerView { selected_shape: target, ..old(input_manager)@ }),
        r.0 == SkinAction::SelectFace(old(input_manager)@.selected_shape),
        r.1 == color_of_selected(face_manager@, face_colors@, old(input_manager)@.selected_shape),
        r.2 == color_of_selected(face_manager@, face_colors@, target),
        (old(input_manager)@.selected_shape is Some || target is Some) ==> *final(canvas) == (Canvas { resync_shapes: 2, ..*old(canvas) }),
        (old(input_manager)@.selected_shape is None && target is None) ==> *final(canvas) == *old(canvas),
{
    let previous = input_manager.selected_shape_2d();
    if let Some((_, _)) = previous {
        input_manager.deselect_shape(canvas);
    }
    let release = color_entity_of(face_manager, face_colors, previous);
    if let Some((e, shape)) = target {
        input_manager.select_shape(canvas, e, shape);
    }
    let request = color_entity_of(face_manager, face_colors, target);
    (SkinAction::SelectFace(previous), release, request)
}

impl Action for SkinAction {
    /// A skin action never waits on an entity's authority.
    open spec fn spec_watches_entity(&self, entity: u64) -> bool {
        false
    }

    fn watches_entity(&self, entity: u64) -> (r: bool) {
        false
    }
}

} // verus!
