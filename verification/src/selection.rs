//! The face-selection state machine.
//!
//! A pointer press carrying a hit face and a multi-select flag mutates
//! the part's selected-face list: outside the face-selection mode nothing
//! happens; a plain press replaces the selection with the hit face; a
//! multi-select press toggles the hit face, removing the first selected
//! face that equals it or appending it when none does.

use vstd::prelude::*;

use crate::components::{
    Face, FaceView, Part, spec_face_eq, face_in, faces_view, lemma_face_eq_reflexive,
    lemma_wf_selections_changed,
};

verus! {

/// The editor modes; selection input is only processed in `SelectFace`.
#[derive(Clone, Copy, Debug, PartialEq, Eq, Structural)]
pub enum EditorMode {
    SelectFace,
    SelectEdge,
    MoveFace,
    RotatePart,
}

impl Default for EditorMode {
    /// The editor starts in face-selection mode.
    fn default() -> (m: Self)
        ensures
            m == EditorMode::SelectFace,
    {
        EditorMode::SelectFace
    }
}

/// The index of the first selected face equal to the hit face, or -1
/// when no selected face equals it.
pub open spec fn first_match(sel: Seq<FaceView>, hit: FaceView) -> int
    decreases sel.len(),
{
    if sel.len() == 0 {
        -1
    } else if spec_face_eq(sel[0], hit) {
        0
    } else {
        let r = first_match(sel.drop_first(), hit);
        if r < 0 {
            -1
        } else {
            r + 1
        }
    }
}

/// The selected-face list after one pointer press: unchanged outside the
/// face-selection mode; replaced by the hit face on a plain press; and
/// toggled on a multi-select press.
pub open spec fn select_transition(
    sel: Seq<FaceView>,
    hit: FaceView,
    multi: bool,
    mode: EditorMode,
) -> Seq<FaceView> {
    if mode != EditorMode::SelectFace {
        sel
    } else if !multi {
        seq![hit]
    } else if first_match(sel, hit) >= 0 {
        sel.remove(first_match(sel, hit))
    } else {
        sel.push(hit)
    }
}

/// If no selected face before `i` equals the hit and face `i` does, the
/// first match is `i`.
proof fn lemma_first_match_found(sel: Seq<FaceView>, hit: FaceView, i: int)
    requires
        0 <= i < sel.len(),
        forall|ii: int| 0 <= ii < i ==> !spec_face_eq(#[trigger] sel[ii], hit),
        spec_face_eq(sel[i], hit),
    ensures
        first_match(sel, hit) == i,
    decreases i,
{
    if i == 0 {
    } else {
        assert(!spec_face_eq(sel[0], hit));
        assert(forall|ii: int|
            0 <= ii < i - 1 ==> !spec_face_eq(#[trigger] sel.drop_first()[ii], hit));
        assert(sel.drop_first()[i - 1] == sel[i]);
        lemma_first_match_found(sel.drop_first(), hit, i - 1);
    }
}

/// If no selected face equals the hit, there is no match.
proof fn lemma_first_match_none(sel: Seq<FaceView>, hit: FaceView)
    requires
        forall|ii: int| 0 <= ii < sel.len() ==> !spec_face_eq(#[trigger] sel[ii], hit),
    ensures
        first_match(sel, hit) == -1,
    decreases sel.len(),
{
    if sel.len() == 0 {
    } else {
        assert(forall|ii: int|
            0 <= ii < sel.len() - 1 ==> !spec_face_eq(#[trigger] sel.drop_first()[ii], hit));
        lemma_first_match_none(sel.drop_first(), hit);
    }
}

/// Finds the position of the first face in the list equal to the hit.
pub fn find_face_position(faces: &Vec<Face>, hit: &Face) -> (r: Option<usize>)
    requires
        forall|i: int| 0 <= i < faces@.len() ==> (#[trigger] faces_view(faces@)[i]).wf(),
        hit@.wf(),
    ensures
        match r {
            Some(i) => i < faces@.len() && first_match(faces_view(faces@), hit@) == i,
            None => first_match(faces_view(faces@), hit@) == -1,
        },
{
    let mut i: usize = 0;
    while i < faces.len()
        invariant
            forall|j: int| 0 <= j < faces@.len() ==> (#[trigger] faces_view(faces@)[j]).wf(),
            hit@.wf(),
            i <= faces@.len(),
            forall|ii: int|
                0 <= ii < i ==> !spec_face_eq(#[trigger] faces_view(faces@)[ii], hit@),
        decreases faces@.len() - i,
    {
        assert(faces@[i as int]@ == faces_view(faces@)[i as int]);
        if faces[i].face_eq(hit) {
            proof {
                lemma_first_match_found(faces_view(faces@), hit@, i as int);
            }
            return Some(i);
        }
        i = i + 1;
    }
    proof {
        lemma_first_match_none(faces_view(faces@), hit@);
    }
    None
}

/// Applies one pointer press to the part's face selection: `hit_index`
/// names the face of the part that the pointer hit.
pub fn handle_face_selection(part: &mut Part, hit_index: usize, multi: bool, mode: EditorMode)
    requires
        old(part)@.wf(),
        hit_index < old(part)@.faces.len(),
    ensures
        final(part)@.wf(),
        final(part)@.selected_faces == select_transition(
            old(part)@.selected_faces,
            old(part)@.faces[hit_index as int],
            multi,
            mode,
        ),
        final(part)@.vertices == old(part)@.vertices,
        final(part)@.edges == old(part)@.edges,
        final(part)@.faces == old(part)@.faces,
        final(part)@.selected_vertices == old(part)@.selected_vertices,
        final(part)@.selected_edges == old(part)@.selected_edges,
{
    if mode != EditorMode::SelectFace {
        return ;
    }
    let ghost hitv = part@.faces[hit_index as int];
    let hit = part.faces[hit_index].copy();
    assert(hit@ == hitv);
    assert(hitv.wf());
    if !multi {
        part.selected_faces.clear();
        part.selected_faces.push(hit);
        proof {
            assert(faces_view(part.selected_faces@) =~= seq![hitv]);
            assert(part@.selected_faces[0] == hitv);
            lemma_face_eq_reflexive(hitv);
            assert(face_in(part@.faces, hitv)) by {
                assert(spec_face_eq(hitv, part@.faces[hit_index as int]));
            }
            assert forall|j: int| 0 <= j < part@.selected_faces.len() implies (
            #[trigger] part@.selected_faces[j]).wf() && face_in(
                part@.faces,
                part@.selected_faces[j],
            ) by {
                assert(part@.selected_faces[j] == hitv);
            }
            lemma_wf_selections_changed(old(part)@, part@);
        }
    } else {
        let ghost sel0 = faces_view(part.selected_faces@);
        proof {
            assert forall|j: int| 0 <= j < part.selected_faces@.len() implies (
            #[trigger] faces_view(part.selected_faces@)[j]).wf() by {
                assert(faces_view(part.selected_faces@)[j] == part@.selected_faces[j]);
            }
        }
        let pos = find_face_position(&part.selected_faces, &hit);
        match pos {
            Some(i) => {
                part.selected_faces.remove(i);
                proof {
                    assert(faces_view(part.selected_faces@) =~= sel0.remove(i as int));
                    assert forall|j: int|
                        0 <= j < part@.selected_faces.len() implies (
                    #[trigger] part@.selected_faces[j]).wf() && face_in(
                        part@.faces,
                        part@.selected_faces[j],
                    ) by {
                        if j < i {
                            assert(part@.selected_faces[j] == old(part)@.selected_faces[j]);
                        } else {
                            assert(part@.selected_faces[j] == old(part)@.selected_faces[j + 1]);
                        }
                    }
                    lemma_wf_selections_changed(old(part)@, part@);
                }
            },
            None => {
                part.selected_faces.push(hit);
                proof {
                    assert(faces_view(part.selected_faces@) =~= sel0.push(hitv));
                    lemma_face_eq_reflexive(hitv);
                    assert forall|j: int|
                        0 <= j < part@.selected_faces.len() implies (
                    #[trigger] part@.selected_faces[j]).wf() && face_in(
                        part@.faces,
                        part@.selected_faces[j],
                    ) by {
                        if j < sel0.len() {
                            assert(part@.selected_faces[j] == old(part)@.selected_faces[j]);
                        } else {
                            assert(part@.selected_faces[j] == hitv);
                            assert(face_in(part@.faces, hitv)) by {
                                assert(spec_face_eq(hitv, part@.faces[hit_index as int]));
                            }
                        }
                    }
                    lemma_wf_selections_changed(old(part)@, part@);
                }
            },
        }
    }
}

/// Law: starting from an empty selection, a plain press of face `a`
/// selects exactly `a`; a multi-select press of a face `b` that does not
/// equal `a` appends `b`; a second multi-select press of `a` removes `a`
/// and leaves exactly `b`.
pub proof fn lemma_selection_toggle(a: FaceView, b: FaceView)
    requires
        !spec_face_eq(a, b),
    ensures
        ({
            let s1 = select_transition(Seq::empty(), a, false, EditorMode::SelectFace);
            let s2 = select_transition(s1, b, true, EditorMode::SelectFace);
            let s3 = select_transition(s2, a, true, EditorMode::SelectFace);
            s1 == seq![a] && s2 == seq![a, b] && s3 == seq![b]
        }),
{
    let s1 = select_transition(Seq::empty(), a, false, EditorMode::SelectFace);
    assert(s1 == seq![a]);
    let s2 = select_transition(s1, b, true, EditorMode::SelectFace);
    assert(seq![a][0] == a);
    assert(!spec_face_eq(seq![a][0], b));
    assert(seq![a].drop_first() =~= Seq::<FaceView>::empty());
    assert(first_match(Seq::<FaceView>::empty(), b) == -1);
    assert(first_match(seq![a], b) == -1);
    assert(s2 =~= seq![a, b]);
    let s3 = select_transition(s2, a, true, EditorMode::SelectFace);
    lemma_face_eq_reflexive(a);
    assert(spec_face_eq(seq![a, b][0], a));
    assert(first_match(seq![a, b], a) == 0);
    assert(s3 =~= seq![a, b].remove(0));
    assert(s3 =~= seq![b]);
}

} // verus!
