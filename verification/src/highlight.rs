//! The highlight policy: a pure map from selection and hover state to a
//! display color, with selected taking precedence over hovered.

use vstd::prelude::*;

use crate::components::{Face, FaceView, Part, spec_face_eq, faces_view};
use crate::selection::EditorMode;

verus! {

/// The three display states a face can be shown in.
#[derive(Clone, Copy, Debug, PartialEq, Eq, Structural)]
pub enum ColorState {
    /// The face is selected (shown in the pressed material).
    Selected,
    /// The face is hovered and not selected.
    Hovered,
    /// Neither selected nor hovered.
    NoChange,
}

/// The color a face gets: selected wins over hovered, hovered over the
/// default.
pub open spec fn spec_color_for(is_selected: bool, is_hovered: bool) -> ColorState {
    if is_selected {
        ColorState::Selected
    } else if is_hovered {
        ColorState::Hovered
    } else {
        ColorState::NoChange
    }
}

/// Maps selection and hover state to a display color.
pub fn color_for(is_selected: bool, is_hovered: bool) -> (c: ColorState)
    ensures
        c == spec_color_for(is_selected, is_hovered),
{
    if is_selected {
        ColorState::Selected
    } else if is_hovered {
        ColorState::Hovered
    } else {
        ColorState::NoChange
    }
}

/// Some selected face equals the given face.
pub open spec fn any_selected_eq(sel: Seq<FaceView>, f: FaceView) -> bool {
    exists|j: int| 0 <= j < sel.len() && spec_face_eq(#[trigger] sel[j], f)
}

/// Decides whether the face at `face_index` is selected, by the face
/// equality rule.
pub fn is_face_selected(part: &Part, face_index: usize) -> (r: bool)
    requires
        part@.wf(),
        face_index < part@.faces.len(),
    ensures
        r == any_selected_eq(part@.selected_faces, part@.faces[face_index as int]),
{
    let ghost fv = part@.faces[face_index as int];
    let mut j: usize = 0;
    while j < part.selected_faces.len()
        invariant
            part@.wf(),
            face_index < part@.faces.len(),
            fv == part@.faces[face_index as int],
            j <= part@.selected_faces.len(),
            forall|jj: int|
                0 <= jj < j ==> !spec_face_eq(#[trigger] part@.selected_faces[jj], fv),
        decreases part@.selected_faces.len() - j,
    {
        assert(part.selected_faces@[j as int]@ == part@.selected_faces[j as int]);
        assert(part.faces@[face_index as int]@ == fv);
        if part.selected_faces[j].face_eq(&part.faces[face_index]) {
            return true;
        }
        j = j + 1;
    }
    false
}

/// The display color for the face at `face_index` this tick: outside the
/// face-selection mode every face keeps the default material.
pub fn face_color(part: &Part, face_index: usize, is_hovered: bool, mode: EditorMode) -> (c:
    ColorState)
    requires
        part@.wf(),
        face_index < part@.faces.len(),
    ensures
        mode == EditorMode::SelectFace ==> c == spec_color_for(
            any_selected_eq(part@.selected_faces, part@.faces[face_index as int]),
            is_hovered,
        ),
        mode != EditorMode::SelectFace ==> c == ColorState::NoChange,
{
    if mode != EditorMode::SelectFace {
        return ColorState::NoChange;
    }
    let selected = is_face_selected(part, face_index);
    color_for(selected, is_hovered)
}

} // verus!
