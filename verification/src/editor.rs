//! The editor state: the parts of the scene plus the current editor
//! mode, driven by explicit commands instead of a framework dispatcher.
//!
//! `EditorState` carries a type invariant — every part it holds is well
//! formed — so the ordinary front end can call every method without
//! preconditions.

use vstd::prelude::*;

use crate::vec3_rounded::{Vec3Rounded, COORD_LIMIT, coord_in_range};
use crate::components::{
    Part, PartView, ExtrusionParams, EditorError, verts_of_points, faces_view,
    lemma_wf_selections_changed, coords_of,
};
use crate::topology::{cube_edges, cube_faces, build_part};
use crate::extrude::{
    extrude_faces, extruded_vertices, extruded_edges, extruded_faces, all_extrusions_in_range,
    sum_in_range,
};
use crate::selection::{EditorMode, handle_face_selection, select_transition};
use crate::highlight::{ColorState, face_color, spec_color_for, any_selected_eq};
use crate::mesh::face_mesh_data;

verus! {

/// The view sequence of a part vector.
pub open spec fn parts_view(ps: Seq<Part>) -> Seq<PartView> {
    Seq::new(ps.len(), |i: int| ps[i]@)
}

/// The mathematical model of the editor state.
pub struct EditorStateView {
    pub parts: Seq<PartView>,
    pub mode: EditorMode,
}

/// The editor state: all parts of the scene and the current mode.
pub struct EditorState {
    parts: Vec<Part>,
    mode: EditorMode,
}

impl View for EditorState {
    type V = EditorStateView;

    closed spec fn view(&self) -> EditorStateView {
        EditorStateView { parts: parts_view(self.parts@), mode: self.mode }
    }
}

impl EditorState {
    /// Every part of the state is well formed, at all times.
    #[verifier::type_invariant]
    spec fn inv(self) -> bool {
        forall|i: int| 0 <= i < self.parts@.len() ==> (#[trigger] self.parts@[i]@).wf()
    }

    /// A fresh editor: no parts, face-selection mode.
    pub fn new() -> (s: EditorState)
        ensures
            s@.parts.len() == 0,
            s@.mode == EditorMode::SelectFace,
    {
        EditorState { parts: Vec::new(), mode: EditorMode::SelectFace }
    }

    pub fn part_count(&self) -> (n: usize)
        ensures
            n == self@.parts.len(),
    {
        self.parts.len()
    }

    pub fn mode(&self) -> (m: EditorMode)
        ensures
            m == self@.mode,
    {
        self.mode
    }

    /// The vertex, edge and face counts of a part.
    pub fn counts(&self, part_index: usize) -> (r: Option<(usize, usize, usize)>)
        ensures
            r is Some <==> part_index < self@.parts.len(),
            r matches Some(t) ==> {
                &&& t.0 == self@.parts[part_index as int].vertices.len()
                &&& t.1 == self@.parts[part_index as int].edges.len()
                &&& t.2 == self@.parts[part_index as int].faces.len()
            },
    {
        if part_index >= self.parts.len() {
            return None;
        }
        let p = &self.parts[part_index];
        Some((p.vertices.len(), p.edges.len(), p.faces.len()))
    }

    /// How many faces of a part are selected.
    pub fn selected_face_count(&self, part_index: usize) -> (r: Option<usize>)
        ensures
            r is Some <==> part_index < self@.parts.len(),
            r matches Some(n) ==> n == self@.parts[part_index as int].selected_faces.len(),
    {
        if part_index >= self.parts.len() {
            return None;
        }
        Some(self.parts[part_index].selected_faces.len())
    }

    /// The render data of a quad face: positions, quad-split triangle
    /// indices, and the face normal.
    pub fn face_mesh(&self, part_index: usize, face_index: usize) -> (r: Option<
        (Vec<Vec3Rounded>, Vec<u32>, Vec3Rounded),
    >)
        ensures
            r is Some <==> part_index < self@.parts.len() && face_index < self@.parts[part_index as int].faces.len()
                && self@.parts[part_index as int].faces[face_index as int].vertices.len() == 4,
            r matches Some(t) ==> {
                &&& t.0@ == coords_of(self@.parts[part_index as int].faces[face_index as int].vertices)
                &&& t.1@ =~= seq![0u32, 1u32, 2u32, 2u32, 3u32, 0u32]
                &&& t.2 == self@.parts[part_index as int].faces[face_index as int].normal
            },
    {
        proof {
            use_type_invariant(&*self);
        }
        if part_index >= self.parts.len() {
            return None;
        }
        let p = &self.parts[part_index];
        if face_index >= p.faces.len() {
            return None;
        }
        assert(p.faces@[face_index as int]@ == self@.parts[part_index as int].faces[face_index as int]);
        if p.faces[face_index].vertices.len() != 4 {
            return None;
        }
        Some(face_mesh_data(&p.faces[face_index]))
    }

    /// The display color of a face this tick.
    pub fn face_display(&self, part_index: usize, face_index: usize, is_hovered: bool) -> (r:
        Option<ColorState>)
        ensures
            r is Some <==> part_index < self@.parts.len() && face_index < self@.parts[part_index as int].faces.len(),
            r matches Some(c) ==> {
                &&& self@.mode == EditorMode::SelectFace ==> c == spec_color_for(
                    any_selected_eq(
                        self@.parts[part_index as int].selected_faces,
                        self@.parts[part_index as int].faces[face_index as int],
                    ),
                    is_hovered,
                )
                &&& self@.mode != EditorMode::SelectFace ==> c == ColorState::NoChange
            },
    {
        proof {
            use_type_invariant(&*self);
        }
        if part_index >= self.parts.len() {
            return None;
        }
        let p = &self.parts[part_index];
        if face_index >= p.faces.len() {
            return None;
        }
        Some(face_color(p, face_index, is_hovered, self.mode))
    }

    /// Switches the editor mode and clears every selection list on every
    /// part, simultaneously: after the call no part keeps any selected
    /// vertex, edge or face, and no part's geometry changes.
    pub fn set_editor_mode(&mut self, mode: EditorMode)
        ensures
            final(self)@.mode == mode,
            final(self)@.parts.len() == old(self)@.parts.len(),
            forall|i: int|
                0 <= i < final(self)@.parts.len() ==> (
                #[trigger] final(self)@.parts[i]).selections_empty(),
            forall|i: int|
                0 <= i < final(self)@.parts.len() ==> {
                    &&& (#[trigger] final(self)@.parts[i]).vertices == old(self)@.parts[i].vertices
                    &&& final(self)@.parts[i].edges == old(self)@.parts[i].edges
                    &&& final(self)@.parts[i].faces == old(self)@.parts[i].faces
                },
    {
        proof {
            use_type_invariant(&*self);
        }
        let ghost parts0 = parts_view(self.parts@);
        let mut work: Vec<Part> = Vec::new();
        core::mem::swap(&mut work, &mut self.parts);
        let mut out: Vec<Part> = Vec::new();
        let mut i: usize = 0;
        let n = work.len();
        while i < n
            invariant
                n == work@.len() + i,
                parts0.len() == n,
                i <= n,
                out@.len() == i,
                forall|j: int| 0 <= j < work@.len() ==> (#[trigger] work@[j]@) == parts0[i + j],
                forall|j: int| 0 <= j < work@.len() ==> (#[trigger] work@[j]@).wf(),
                forall|j: int|
                    0 <= j < i ==> {
                        &&& (#[trigger] out@[j]@).wf()
                        &&& out@[j]@.selections_empty()
                        &&& out@[j]@.vertices == parts0[j].vertices
                        &&& out@[j]@.edges == parts0[j].edges
                        &&& out@[j]@.faces == parts0[j].faces
                    },
            decreases n - i,
        {
            let mut p = work.remove(0);
            assert(p@ == parts0[i as int]);
            clear_selections(&mut p);
            out.push(p);
            proof {
                assert(forall|j: int|
                    0 <= j < work@.len() ==> (#[trigger] work@[j]@) == parts0[i + 1 + j]);
            }
            i = i + 1;
        }
        core::mem::swap(&mut out, &mut self.parts);
        self.mode = mode;
        proof {
            assert(forall|j: int|
                0 <= j < final(self)@.parts.len() ==> #[trigger] final(self)@.parts[j]
                    == self.parts@[j]@);
        }
    }

    /// Creates a new cuboid part from eight ordered corner points and
    /// adds it to the scene.
    pub fn create_solid(&mut self, points: &Vec<Vec3Rounded>) -> (r: Result<(), EditorError>)
        ensures
            r is Ok <==> points@.len() == 8 && (forall|i: int|
                0 <= i < points@.len() ==> (#[trigger] points@[i]).in_range()),
            r == Err::<(), EditorError>(EditorError::InvalidPointCount) <==> points@.len() != 8,
            r == Err::<(), EditorError>(EditorError::CoordinateOutOfRange) <==> points@.len() == 8
                && !(forall|i: int|
                0 <= i < points@.len() ==> (#[trigger] points@[i]).in_range()),
            r is Err ==> *final(self) == *old(self),
            r is Ok ==> final(self)@.parts == old(self)@.parts.push(spec_built_part(points@)),
            final(self)@.mode == old(self)@.mode,
    {
        proof {
            use_type_invariant(&*self);
        }
        if points.len() != 8 {
            return Err(EditorError::InvalidPointCount);
        }
        let mut i: usize = 0;
        while i < points.len()
            invariant
                points@.len() == 8,
                i <= points@.len(),
                forall|j: int| 0 <= j < i ==> (#[trigger] points@[j]).in_range(),
            decreases points@.len() - i,
        {
            if !coord_in_range(&points[i]) {
                assert(!points@[i as int].in_range());
                return Err(EditorError::CoordinateOutOfRange);
            }
            i = i + 1;
        }
        let p = build_part(points);
        let ghost pv = p@;
        let mut work: Vec<Part> = Vec::new();
        core::mem::swap(&mut work, &mut self.parts);
        work.push(p);
        core::mem::swap(&mut work, &mut self.parts);
        proof {
            assert(pv =~~= spec_built_part(points@));
            assert(final(self)@.parts =~= old(self)@.parts.push(spec_built_part(points@)));
        }
        Ok(())
    }

    /// Applies one pointer press to the face selection of one part.
    pub fn select_face(&mut self, part_index: usize, face_index: usize, multi: bool) -> (r: Result<
        (),
        EditorError,
    >)
        ensures
            r is Ok <==> part_index < old(self)@.parts.len() && face_index < old(
                self,
            )@.parts[part_index as int].faces.len(),
            r is Err ==> *final(self) == *old(self) && r == Err::<(), EditorError>(
                EditorError::NoSuchElement,
            ),
            r is Ok ==> final(self)@.parts == old(self)@.parts.update(
                part_index as int,
                spec_selected_updated(
                    old(self)@.parts[part_index as int],
                    face_index as int,
                    multi,
                    old(self)@.mode,
                ),
            ),
            final(self)@.mode == old(self)@.mode,
    {
        proof {
            use_type_invariant(&*self);
        }
        if part_index >= self.parts.len() {
            return Err(EditorError::NoSuchElement);
        }
        if face_index >= self.parts[part_index].faces.len() {
            return Err(EditorError::NoSuchElement);
        }
        let mode = self.mode;
        let ghost parts0 = parts_view(self.parts@);
        let mut work: Vec<Part> = Vec::new();
        core::mem::swap(&mut work, &mut self.parts);
        let mut p = work.remove(part_index);
        assert(p@ == parts0[part_index as int]);
        handle_face_selection(&mut p, face_index, multi, mode);
        work.insert(part_index, p);
        core::mem::swap(&mut work, &mut self.parts);
        proof {
            assert(forall|j: int|
                0 <= j < self.parts@.len() ==> #[trigger] self.parts@[j]@ == parts_view(
                    self.parts@,
                )[j]);
            assert(final(self)@.parts =~= old(self)@.parts.update(
                part_index as int,
                spec_selected_updated(
                    old(self)@.parts[part_index as int],
                    face_index as int,
                    multi,
                    old(self)@.mode,
                ),
            ));
        }
        Ok(())
    }

    /// Runs the extrude command: every part with a nonempty face
    /// selection whose translation stays on the grid grows by the
    /// extruded geometry and has its selections cleared; every other
    /// part reports why it was left unchanged.
    pub fn extrude_selected(&mut self, extrusion_vector: Vec3Rounded) -> (results: Vec<
        Result<(), EditorError>,
    >)
        ensures
            results@.len() == old(self)@.parts.len(),
            final(self)@.parts.len() == old(self)@.parts.len(),
            final(self)@.mode == old(self)@.mode,
            forall|i: int|
                0 <= i < old(self)@.parts.len() ==> (#[trigger] final(self)@.parts[i])
                    == spec_extruded_part(old(self)@.parts[i], extrusion_vector),
            forall|i: int|
                0 <= i < old(self)@.parts.len() ==> (#[trigger] results@[i])
                    == spec_extrude_result(old(self)@.parts[i], extrusion_vector),
    {
        proof {
            use_type_invariant(&*self);
        }
        let d = extrusion_vector;
        let ghost parts0 = parts_view(self.parts@);
        let mut work: Vec<Part> = Vec::new();
        core::mem::swap(&mut work, &mut self.parts);
        let mut results: Vec<Result<(), EditorError>> = Vec::new();
        let n = work.len();
        let mut i: usize = 0;
        while i < n
            invariant
                d == extrusion_vector,
                n == work@.len(),
                parts0.len() == n,
                i <= n,
                results@.len() == i,
                forall|j: int| 0 <= j < work@.len() ==> (#[trigger] work@[j]@).wf(),
                forall|j: int| i <= j < n ==> (#[trigger] work@[j]@) == parts0[j],
                forall|j: int|
                    0 <= j < i ==> (#[trigger] work@[j]@) == spec_extruded_part(parts0[j], d),
                forall|j: int|
                    0 <= j < i ==> (#[trigger] results@[j]) == spec_extrude_result(parts0[j], d),
            decreases n - i,
        {
            let mut p = work.remove(i);
            assert(p@ == parts0[i as int]);
            let r0 = extrude_faces(&mut p, d);
            let res: Result<(), EditorError> = match r0 {
                Ok(_) => {
                    clear_selections(&mut p);
                    proof {
                        assert(spec_extrude_ok(parts0[i as int], d));
                        assert(p@ =~~= spec_extruded_part(parts0[i as int], d));
                    }
                    Ok(())
                },
                Err(e) => {
                    assert(p@ == parts0[i as int]);
                    Err(e)
                },
            };
            proof {
                assert(res == spec_extrude_result(parts0[i as int], d));
            }
            work.insert(i, p);
            results.push(res);
            i = i + 1;
        }
        core::mem::swap(&mut work, &mut self.parts);
        proof {
            assert(forall|j: int|
                0 <= j < self.parts@.len() ==> #[trigger] self.parts@[j]@ == parts_view(
                    self.parts@,
                )[j]);
        }
        results
    }
}

/// The model of a part built from eight corner points.
pub open spec fn spec_built_part(ps: Seq<Vec3Rounded>) -> PartView {
    PartView {
        vertices: verts_of_points(ps),
        edges: cube_edges(verts_of_points(ps)),
        faces: cube_faces(verts_of_points(ps)),
        selected_vertices: Seq::empty(),
        selected_edges: Seq::empty(),
        selected_faces: Seq::empty(),
    }
}

/// The model of a part after one pointer press on face `hit_index`.
pub open spec fn spec_selected_updated(
    p: PartView,
    hit_index: int,
    multi: bool,
    mode: EditorMode,
) -> PartView {
    PartView {
        selected_faces: select_transition(p.selected_faces, p.faces[hit_index], multi, mode),
        ..p
    }
}

/// Whether an extrusion succeeds on this part: some face is selected and
/// every translated vertex stays on the grid.
pub open spec fn spec_extrude_ok(p: PartView, d: Vec3Rounded) -> bool {
    p.selected_faces.len() > 0 && all_extrusions_in_range(p.selected_faces, d)
}

/// The model of a part after the extrude command: grown by the new
/// geometry with all selections cleared, or unchanged when the command
/// reports an error for it.
pub open spec fn spec_extruded_part(p: PartView, d: Vec3Rounded) -> PartView {
    if spec_extrude_ok(p, d) {
        PartView {
            vertices: p.vertices + extruded_vertices(p.selected_faces, d),
            edges: p.edges + extruded_edges(p.selected_faces, d),
            faces: p.faces + extruded_faces(p.selected_faces, d),
            selected_vertices: Seq::empty(),
            selected_edges: Seq::empty(),
            selected_faces: Seq::empty(),
        }
    } else {
        p
    }
}

/// What the extrude command reports for one part.
pub open spec fn spec_extrude_result(p: PartView, d: Vec3Rounded) -> Result<(), EditorError> {
    if p.selected_faces.len() == 0 {
        Err(EditorError::NoFacesSelected)
    } else if !all_extrusions_in_range(p.selected_faces, d) {
        Err(EditorError::CoordinateOutOfRange)
    } else {
        Ok(())
    }
}

/// Clears all three selection lists of a part, leaving its geometry
/// untouched.
pub fn clear_selections(part: &mut Part)
    requires
        old(part)@.wf(),
    ensures
        final(part)@.wf(),
        final(part)@.selections_empty(),
        final(part)@.vertices == old(part)@.vertices,
        final(part)@.edges == old(part)@.edges,
        final(part)@.faces == old(part)@.faces,
{
    part.selected_vertices.clear();
    part.selected_edges.clear();
    part.selected_faces.clear();
    proof {
        assert(faces_view(part.selected_faces@) =~= Seq::<crate::components::FaceView>::empty());
        lemma_wf_selections_changed(old(part)@, part@);
    }
}

/// The points of a list translated by an offset, exactly.
pub open spec fn translated_points(ps: Seq<Vec3Rounded>, offset: Vec3Rounded) -> Seq<Vec3Rounded> {
    Seq::new(
        ps.len(),
        |i: int|
            Vec3Rounded {
                x: (ps[i].x + offset.x) as i64,
                y: (ps[i].y + offset.y) as i64,
                z: (ps[i].z + offset.z) as i64,
            },
    )
}

/// Translates a point list by an offset, rejecting any translation that
/// would leave the grid.
pub fn translate_points(points: &Vec<Vec3Rounded>, offset: Vec3Rounded) -> (r: Result<
    Vec<Vec3Rounded>,
    EditorError,
>)
    ensures
        r is Ok <==> forall|i: int|
            0 <= i < points@.len() ==> sum_in_range(#[trigger] points@[i], offset),
        r is Err ==> r == Err::<Vec<Vec3Rounded>, EditorError>(EditorError::CoordinateOutOfRange),
        r matches Ok(ps) ==> ps@ == translated_points(points@, offset),
{
    let mut out: Vec<Vec3Rounded> = Vec::new();
    let mut i: usize = 0;
    while i < points.len()
        invariant
            i <= points@.len(),
            out@ =~= translated_points(points@, offset).take(i as int),
            forall|j: int| 0 <= j < i ==> sum_in_range(#[trigger] points@[j], offset),
        decreases points@.len() - i,
    {
        let p = points[i];
        let sx = p.x as i128 + offset.x as i128;
        let sy = p.y as i128 + offset.y as i128;
        let sz = p.z as i128 + offset.z as i128;
        let lim = COORD_LIMIT as i128;
        if sx < -lim || sx > lim || sy < -lim || sy > lim || sz < -lim || sz > lim {
            assert(!sum_in_range(points@[i as int], offset));
            return Err(EditorError::CoordinateOutOfRange);
        }
        out.push(Vec3Rounded { x: p.x + offset.x, y: p.y + offset.y, z: p.z + offset.z });
        i = i + 1;
    }
    proof {
        assert(out@ =~= translated_points(points@, offset));
    }
    Ok(out)
}

/// The extrusion vector of a request: direction scaled by distance,
/// exactly. A vector longer than twice the coordinate limit cannot move
/// any in-range point to an in-range point, so it is rejected here.
pub fn extrusion_vector(params: &ExtrusionParams) -> (r: Result<Vec3Rounded, EditorError>)
    ensures
        r is Err ==> r == Err::<Vec3Rounded, EditorError>(EditorError::CoordinateOutOfRange),
        r matches Ok(v) ==> {
            &&& v.x == params.direction.x * params.distance
            &&& v.y == params.direction.y * params.distance
            &&& v.z == params.direction.z * params.distance
        },
        r is Ok <==> {
            &&& -2 * COORD_LIMIT <= params.direction.x * params.distance <= 2 * COORD_LIMIT
            &&& -2 * COORD_LIMIT <= params.direction.y * params.distance <= 2 * COORD_LIMIT
            &&& -2 * COORD_LIMIT <= params.direction.z * params.distance <= 2 * COORD_LIMIT
        },
{
    let dist = params.distance as i128;
    proof {
        let b: int = 0x8000_0000_0000_0000;
        crate::vec3_rounded::lemma_mul_bound(params.direction.x as int, dist as int, b, b);
        crate::vec3_rounded::lemma_mul_bound(params.direction.y as int, dist as int, b, b);
        crate::vec3_rounded::lemma_mul_bound(params.direction.z as int, dist as int, b, b);
    }
    let px = params.direction.x as i128 * dist;
    let py = params.direction.y as i128 * dist;
    let pz = params.direction.z as i128 * dist;
    let lim = 2 * COORD_LIMIT as i128;
    if px < -lim || px > lim || py < -lim || py > lim || pz < -lim || pz > lim {
        return Err(EditorError::CoordinateOutOfRange);
    }
    Ok(Vec3Rounded { x: px as i64, y: py as i64, z: pz as i64 })
}

} // verus!
