//! The extrusion engine: grows a part by translating each selected face
//! along a vector and building the cap and side walls that connect old
//! and new boundaries.
//!
//! Faces are processed independently; vertices created within one call
//! are deduplicated against each other by the same-vertex tolerance
//! (squared distance under `EPS_SQ`) but never against the part's
//! existing vertices. Side edges are carried only by the side faces, so
//! each face contributes its cap edges and connecting edges to the
//! master list.

use vstd::prelude::*;

use crate::vec3_rounded::{
    Vec3Rounded, COORD_LIMIT, EPS_SQ, near, dist_sq, lemma_dist_sq_symmetric,
};
use crate::components::{
    Vertex, Edge, Face, FaceView, Part, EditorError, coords_of, normal_of, edge_cycle,
    face_of_verts, faces_view, face_in, spec_face_eq, copy_vertices, has_near, has_near_vertex,
};
use crate::topology::{cycle_edges, quad_face};

verus! {

/// The vertex translated by the extrusion vector.
pub open spec fn translated(v: Vertex, d: Vec3Rounded) -> Vertex {
    Vertex {
        coordinates: Vec3Rounded {
            x: (v.coordinates.x + d.x) as i64,
            y: (v.coordinates.y + d.y) as i64,
            z: (v.coordinates.z + d.z) as i64,
        },
    }
}

/// The translated coordinates stay within the coordinate limit (so the
/// translation is exact, with no wrap-around).
pub open spec fn sum_in_range(c: Vec3Rounded, d: Vec3Rounded) -> bool {
    &&& -COORD_LIMIT <= c.x + d.x <= COORD_LIMIT
    &&& -COORD_LIMIT <= c.y + d.y <= COORD_LIMIT
    &&& -COORD_LIMIT <= c.z + d.z <= COORD_LIMIT
}

/// Every vertex of the face can be translated without leaving the grid.
pub open spec fn extrusion_in_range(f: FaceView, d: Vec3Rounded) -> bool {
    forall|i: int|
        0 <= i < f.vertices.len() ==> sum_in_range((#[trigger] f.vertices[i]).coordinates, d)
}

/// Every vertex of every face can be translated without leaving the grid.
pub open spec fn all_extrusions_in_range(faces: Seq<FaceView>, d: Vec3Rounded) -> bool {
    forall|k: int| 0 <= k < faces.len() ==> extrusion_in_range(#[trigger] faces[k], d)
}

/// The translated boundary of a face, in the face's winding order.
pub open spec fn cap_verts(f: FaceView, d: Vec3Rounded) -> Seq<Vertex> {
    Seq::new(f.vertices.len(), |i: int| translated(f.vertices[i], d))
}

/// Appends each vertex of `vs`, in order, to `acc`, skipping any vertex
/// that counts as already present by the same-vertex tolerance: a vertex
/// is reused when one within `EPS_SQ` squared distance was already
/// appended.
pub open spec fn dedup_append(acc: Seq<Vertex>, vs: Seq<Vertex>) -> Seq<Vertex>
    decreases vs.len(),
{
    if vs.len() == 0 {
        acc
    } else {
        let prev = dedup_append(acc, vs.drop_last());
        if has_near(prev, vs.last().coordinates) {
            prev
        } else {
            prev.push(vs.last())
        }
    }
}

/// All new vertices of an extrusion call: the translated boundaries of
/// the selected faces, deduplicated within the call and only within it.
pub open spec fn extruded_vertices(faces: Seq<FaceView>, d: Vec3Rounded) -> Seq<Vertex>
    decreases faces.len(),
{
    if faces.len() == 0 {
        Seq::empty()
    } else {
        dedup_append(extruded_vertices(faces.drop_last(), d), cap_verts(faces.last(), d))
    }
}

/// The edges one face contributes to the master list: for each boundary
/// position, the cap edge between consecutive new vertices, then the
/// connecting edge from the original vertex to its new vertex.
pub open spec fn face_new_edges(f: FaceView, d: Vec3Rounded) -> Seq<Edge> {
    let n = f.vertices.len() as int;
    Seq::new(
        (2 * n) as nat,
        |k: int|
            if k % 2 == 0 {
                Edge { start: cap_verts(f, d)[k / 2], end: cap_verts(f, d)[(k / 2 + 1) % n] }
            } else {
                Edge { start: f.vertices[k / 2], end: cap_verts(f, d)[k / 2] }
            },
    )
}

/// All new edges of an extrusion call, face by face.
pub open spec fn extruded_edges(faces: Seq<FaceView>, d: Vec3Rounded) -> Seq<Edge>
    decreases faces.len(),
{
    if faces.len() == 0 {
        Seq::empty()
    } else {
        extruded_edges(faces.drop_last(), d) + face_new_edges(faces.last(), d)
    }
}

/// The cap face: the translated boundary with the same winding, and the
/// normal inherited from the original face rather than recomputed.
pub open spec fn cap_face(f: FaceView, d: Vec3Rounded) -> FaceView {
    FaceView { vertices: cap_verts(f, d), edges: edge_cycle(cap_verts(f, d)), normal: f.normal }
}

/// The side wall over boundary position `i`: the quad of original vertex
/// `i`, original vertex `i + 1`, new vertex `i + 1`, new vertex `i`, with
/// a normal computed fresh from its own boundary.
pub open spec fn side_face(f: FaceView, d: Vec3Rounded, i: int) -> FaceView {
    let n = f.vertices.len() as int;
    face_of_verts(
        seq![
            f.vertices[i],
            f.vertices[(i + 1) % n],
            cap_verts(f, d)[(i + 1) % n],
            cap_verts(f, d)[i],
        ],
    )
}

/// The faces one face contributes: its cap, then one side wall per
/// boundary position.
pub open spec fn face_new_faces(f: FaceView, d: Vec3Rounded) -> Seq<FaceView> {
    seq![cap_face(f, d)] + Seq::new(f.vertices.len(), |i: int| side_face(f, d, i))
}

/// All new faces of an extrusion call, face by face.
pub open spec fn extruded_faces(faces: Seq<FaceView>, d: Vec3Rounded) -> Seq<FaceView>
    decreases faces.len(),
{
    if faces.len() == 0 {
        Seq::empty()
    } else {
        extruded_faces(faces.drop_last(), d) + face_new_faces(faces.last(), d)
    }
}

/// Appending vertices that are pairwise beyond the tolerance, none of
/// them near the accumulator, adds every one of them.
proof fn lemma_dedup_append_all_new(acc: Seq<Vertex>, vs: Seq<Vertex>)
    requires
        forall|i: int, j: int|
            0 <= i < j < vs.len() ==> !near(
                (#[trigger] vs[i]).coordinates,
                (#[trigger] vs[j]).coordinates,
            ),
        forall|i: int| 0 <= i < vs.len() ==> !has_near(acc, (#[trigger] vs[i]).coordinates),
    ensures
        dedup_append(acc, vs) == acc + vs,
    decreases vs.len(),
{
    if vs.len() == 0 {
        assert(dedup_append(acc, vs) =~= acc + vs);
    } else {
        let front = vs.drop_last();
        assert(forall|i: int| 0 <= i < front.len() ==> front[i] == vs[i]);
        lemma_dedup_append_all_new(acc, front);
        let prev = acc + front;
        let last = vs.last();
        assert(!has_near(prev, last.coordinates)) by {
            if has_near(prev, last.coordinates) {
                let j = choose|j: int|
                    0 <= j < prev.len() && near(last.coordinates, prev[j].coordinates);
                if j < acc.len() {
                    assert(prev[j] == acc[j]);
                    lemma_dist_sq_symmetric(last.coordinates, acc[j].coordinates);
                    assert(has_near(acc, vs[vs.len() - 1].coordinates));
                } else {
                    assert(prev[j] == vs[j - acc.len()]);
                    lemma_dist_sq_symmetric(last.coordinates, vs[j - acc.len()].coordinates);
                    assert(near(vs[j - acc.len()].coordinates, vs[vs.len() - 1].coordinates));
                }
            }
        }
        assert(dedup_append(acc, vs) == prev.push(last));
        assert(prev.push(last) =~= acc + vs);
    }
}

/// Law: extruding a single selected face whose four corners lie
/// pairwise at or beyond the same-vertex tolerance adds exactly four
/// new vertices (the cap corners), eight new edges (four cap edges and
/// four connecting edges), and five new faces (the cap and four side
/// walls).
pub proof fn lemma_extrude_single_face_counts(f: FaceView, d: Vec3Rounded)
    requires
        f.vertices.len() == 4,
        forall|i: int, j: int|
            0 <= i < j < f.vertices.len() ==> dist_sq(
                (#[trigger] f.vertices[i]).coordinates,
                (#[trigger] f.vertices[j]).coordinates,
            ) >= EPS_SQ,
        extrusion_in_range(f, d),
    ensures
        extruded_vertices(seq![f], d).len() == 4,
        extruded_edges(seq![f], d).len() == 8,
        extruded_faces(seq![f], d).len() == 5,
{
    let one = seq![f];
    assert(one.drop_last() =~= Seq::<FaceView>::empty());
    assert(one.last() == f);
    assert(extruded_vertices(Seq::<FaceView>::empty(), d) == Seq::<Vertex>::empty());
    assert(extruded_edges(Seq::<FaceView>::empty(), d) == Seq::<Edge>::empty());
    assert(extruded_faces(Seq::<FaceView>::empty(), d) == Seq::<FaceView>::empty());
    let caps = cap_verts(f, d);
    // translation preserves every coordinate difference exactly, so the
    // cap corners keep the corners' mutual distances
    assert forall|i: int, j: int| 0 <= i < j < caps.len() implies !near(
        (#[trigger] caps[i]).coordinates,
        (#[trigger] caps[j]).coordinates,
    ) by {
        assert(sum_in_range(f.vertices[i].coordinates, d));
        assert(sum_in_range(f.vertices[j].coordinates, d));
        let oi = f.vertices[i].coordinates;
        let oj = f.vertices[j].coordinates;
        assert(caps[i].coordinates.x - caps[j].coordinates.x == oi.x - oj.x);
        assert(caps[i].coordinates.y - caps[j].coordinates.y == oi.y - oj.y);
        assert(caps[i].coordinates.z - caps[j].coordinates.z == oi.z - oj.z);
        assert(dist_sq(caps[i].coordinates, caps[j].coordinates) == dist_sq(oi, oj));
    }
    assert(forall|i: int|
        0 <= i < caps.len() ==> !has_near(
            Seq::<Vertex>::empty(),
            (#[trigger] caps[i]).coordinates,
        ));
    lemma_dedup_append_all_new(Seq::<Vertex>::empty(), caps);
    assert(extruded_vertices(one, d) == Seq::<Vertex>::empty() + caps);
    assert((Seq::<Vertex>::empty() + caps).len() == 4);
    assert(extruded_edges(one, d) == Seq::<Edge>::empty() + face_new_edges(f, d));
    assert(face_new_edges(f, d).len() == 8);
    assert(extruded_faces(one, d) == Seq::<FaceView>::empty() + face_new_faces(f, d));
    assert(face_new_faces(f, d).len() == 5);
}

/// The view of a concatenation is the concatenation of the views.
pub proof fn lemma_faces_view_add(a: Seq<Face>, b: Seq<Face>)
    ensures
        faces_view(a + b) == faces_view(a) + faces_view(b),
{
    assert(faces_view(a + b) =~= faces_view(a) + faces_view(b));
}

/// The view of a push is the push of the view.
pub proof fn lemma_faces_view_push(s: Seq<Face>, f: Face)
    ensures
        faces_view(s.push(f)) == faces_view(s).push(f@),
{
    assert(faces_view(s.push(f)) =~= faces_view(s).push(f@));
}

/// Translating a boundary does not change its winding normal: the cross
/// product is built from coordinate differences, which translation
/// preserves exactly while every sum stays in range.
proof fn lemma_cap_normal(f: FaceView, d: Vec3Rounded)
    requires
        extrusion_in_range(f, d),
    ensures
        normal_of(coords_of(cap_verts(f, d))) == normal_of(coords_of(f.vertices)),
{
    let old_cs = coords_of(f.vertices);
    let new_cs = coords_of(cap_verts(f, d));
    assert(new_cs.len() == old_cs.len());
    if f.vertices.len() >= 3 {
        assert(sum_in_range(f.vertices[0].coordinates, d));
        assert(sum_in_range(f.vertices[1].coordinates, d));
        assert(sum_in_range(f.vertices[2].coordinates, d));
        assert(new_cs[1].x - new_cs[0].x == old_cs[1].x - old_cs[0].x);
        assert(new_cs[1].y - new_cs[0].y == old_cs[1].y - old_cs[0].y);
        assert(new_cs[1].z - new_cs[0].z == old_cs[1].z - old_cs[0].z);
        assert(new_cs[2].x - new_cs[0].x == old_cs[2].x - old_cs[0].x);
        assert(new_cs[2].y - new_cs[0].y == old_cs[2].y - old_cs[0].y);
        assert(new_cs[2].z - new_cs[0].z == old_cs[2].z - old_cs[0].z);
    }
}

/// Translates the boundary of one face and appends its contribution to
/// the new-vertex, new-edge and new-face accumulators of one call.
fn extrude_one_face(
    f: &Face,
    d: Vec3Rounded,
    new_vertices: &mut Vec<Vertex>,
    new_edges: &mut Vec<Edge>,
    new_faces: &mut Vec<Face>,
)
    requires
        f@.wf(),
        extrusion_in_range(f@, d),
        forall|j: int|
            0 <= j < old(new_vertices)@.len() ==> (#[trigger] old(new_vertices)@[j]).in_range(),
        forall|j: int|
            0 <= j < old(new_edges)@.len() ==> (#[trigger] old(new_edges)@[j]).in_range(),
        forall|j: int| 0 <= j < old(new_faces)@.len() ==> (#[trigger] old(new_faces)@[j])@.wf(),
    ensures
        final(new_vertices)@ == dedup_append(old(new_vertices)@, cap_verts(f@, d)),
        final(new_edges)@ == old(new_edges)@ + face_new_edges(f@, d),
        faces_view(final(new_faces)@) == faces_view(old(new_faces)@) + face_new_faces(f@, d),
        forall|j: int|
            0 <= j < final(new_vertices)@.len() ==> (#[trigger] final(new_vertices)@[j]).in_range(),
        forall|j: int|
            0 <= j < final(new_edges)@.len() ==> (#[trigger] final(new_edges)@[j]).in_range(),
        forall|j: int| 0 <= j < final(new_faces)@.len() ==> (#[trigger] final(new_faces)@[j])@.wf(),
{
    let ghost fv = f@;
    let n = f.vertices.len();

    // The translated boundary, pushed into the accumulator unless a
    // vertex within the tolerance was already created by this call.
    let mut caps: Vec<Vertex> = Vec::new();
    let mut i: usize = 0;
    while i < n
        invariant
            fv == f@,
            fv.wf(),
            extrusion_in_range(fv, d),
            n == fv.vertices.len(),
            i <= n,
            caps@ =~= cap_verts(fv, d).take(i as int),
            new_vertices@ == dedup_append(old(new_vertices)@, cap_verts(fv, d).take(i as int)),
            forall|j: int|
                0 <= j < new_vertices@.len() ==> (#[trigger] new_vertices@[j]).in_range(),
        decreases n - i,
    {
        assert(sum_in_range(fv.vertices[i as int].coordinates, d));
        let c = f.vertices[i].coordinates;
        let nv = Vertex { coordinates: Vec3Rounded { x: c.x + d.x, y: c.y + d.y, z: c.z + d.z } };
        assert(nv == translated(fv.vertices[i as int], d));
        caps.push(nv);
        proof {
            assert(cap_verts(fv, d).take(i + 1).drop_last() =~= cap_verts(fv, d).take(i as int));
            assert(cap_verts(fv, d).take(i + 1).last() == translated(fv.vertices[i as int], d));
        }
        if !has_near_vertex(new_vertices, &nv.coordinates) {
            new_vertices.push(nv);
        }
        i = i + 1;
    }
    proof {
        assert(cap_verts(fv, d).take(n as int) =~= cap_verts(fv, d));
        assert(caps@ =~= cap_verts(fv, d));
    }

    // The cap and connecting edges, interleaved per boundary position.
    let ghost edges0 = new_edges@;
    let mut i: usize = 0;
    while i < n
        invariant
            fv == f@,
            fv.wf(),
            extrusion_in_range(fv, d),
            n == fv.vertices.len(),
            caps@ == cap_verts(fv, d),
            i <= n,
            new_edges@ =~= edges0 + face_new_edges(fv, d).take(2 * i as int),
            forall|j: int| 0 <= j < new_edges@.len() ==> (#[trigger] new_edges@[j]).in_range(),
        decreases n - i,
    {
        let next = if i + 1 == n {
            0
        } else {
            i + 1
        };
        proof {
            if i + 1 == n {
                vstd::arithmetic::div_mod::lemma_mod_self_0(n as int);
            } else {
                vstd::arithmetic::div_mod::lemma_small_mod((i + 1) as nat, n as nat);
            }
            assert(sum_in_range(fv.vertices[i as int].coordinates, d));
            assert(sum_in_range(fv.vertices[next as int].coordinates, d));
        }
        new_edges.push(Edge { start: caps[i], end: caps[next] });
        new_edges.push(Edge { start: f.vertices[i], end: caps[i] });
        proof {
            assert(face_new_edges(fv, d)[2 * i as int] == (Edge {
                start: cap_verts(fv, d)[i as int],
                end: cap_verts(fv, d)[(i as int + 1) % (n as int)],
            }));
            assert(face_new_edges(fv, d)[2 * i as int + 1] == (Edge {
                start: fv.vertices[i as int],
                end: cap_verts(fv, d)[i as int],
            }));
            assert(new_edges@ =~= edges0 + face_new_edges(fv, d).take(2 * (i + 1)));
        }
        i = i + 1;
    }
    proof {
        assert(face_new_edges(fv, d).take(2 * n as int) =~= face_new_edges(fv, d));
    }

    // The cap face keeps the original winding and normal.
    let ghost faces0 = new_faces@;
    let cap = Face { vertices: copy_vertices(&caps), edges: cycle_edges(&caps), normal: f.normal };
    proof {
        assert(cap@ == cap_face(fv, d));
        lemma_cap_normal(fv, d);
        assert(cap@.wf());
        lemma_faces_view_push(faces0, cap);
    }
    new_faces.push(cap);

    // One side wall per boundary position.
    let mut i: usize = 0;
    while i < n
        invariant
            fv == f@,
            fv.wf(),
            extrusion_in_range(fv, d),
            n == fv.vertices.len(),
            caps@ == cap_verts(fv, d),
            i <= n,
            new_faces@.len() == faces0.len() + 1 + i,
            faces_view(new_faces@) =~= faces_view(faces0) + seq![cap_face(fv, d)] + Seq::new(
                i as nat,
                |j: int| side_face(fv, d, j),
            ),
            forall|j: int| 0 <= j < new_faces@.len() ==> (#[trigger] new_faces@[j])@.wf(),
        decreases n - i,
    {
        let next = if i + 1 == n {
            0
        } else {
            i + 1
        };
        proof {
            if i + 1 == n {
                vstd::arithmetic::div_mod::lemma_mod_self_0(n as int);
            } else {
                vstd::arithmetic::div_mod::lemma_small_mod((i + 1) as nat, n as nat);
            }
            assert(sum_in_range(fv.vertices[i as int].coordinates, d));
            assert(sum_in_range(fv.vertices[next as int].coordinates, d));
        }
        let side = quad_face(f.vertices[i], f.vertices[next], caps[next], caps[i]);
        proof {
            assert(seq![
                f.vertices@[i as int],
                f.vertices@[next as int],
                caps@[next as int],
                caps@[i as int],
            ] =~= seq![
                fv.vertices[i as int],
                fv.vertices[(i as int + 1) % (n as int)],
                cap_verts(fv, d)[(i as int + 1) % (n as int)],
                cap_verts(fv, d)[i as int],
            ]);
            assert(side@ == side_face(fv, d, i as int));
            lemma_faces_view_push(new_faces@, side);
        }
        new_faces.push(side);
        proof {
            assert(faces_view(new_faces@) =~= faces_view(faces0) + seq![cap_face(fv, d)]
                + Seq::new((i + 1) as nat, |j: int| side_face(fv, d, j)));
        }
        i = i + 1;
    }
    proof {
        assert(Seq::new(n as nat, |j: int| side_face(fv, d, j)) =~= Seq::new(
            fv.vertices.len(),
            |j: int| side_face(fv, d, j),
        ));
        assert(faces_view(new_faces@) =~= faces_view(faces0) + face_new_faces(fv, d));
    }
}

/// Extrudes every selected face of the part along the extrusion vector,
/// appending the new vertices, edges and faces to the master lists. The
/// selection lists are untouched; the caller clears the face selection
/// after a successful call. The part is only modified on success.
pub fn extrude_faces(part: &mut Part, extrusion_vector: Vec3Rounded) -> (r: Result<
    (),
    EditorError,
>)
    requires
        old(part)@.wf(),
    ensures
        final(part)@.wf(),
        r == Err::<(), EditorError>(EditorError::NoFacesSelected) <==> old(
            part,
        )@.selected_faces.len() == 0,
        r == Err::<(), EditorError>(EditorError::CoordinateOutOfRange) <==> old(
            part,
        )@.selected_faces.len() > 0 && !all_extrusions_in_range(
            old(part)@.selected_faces,
            extrusion_vector,
        ),
        r is Err ==> *final(part) == *old(part),
        r is Ok <==> old(part)@.selected_faces.len() > 0 && all_extrusions_in_range(
            old(part)@.selected_faces,
            extrusion_vector,
        ),
        r is Ok ==> {
            &&& old(part)@.selected_faces.len() > 0
            &&& all_extrusions_in_range(old(part)@.selected_faces, extrusion_vector)
            &&& final(part)@.vertices == old(part)@.vertices + extruded_vertices(
                old(part)@.selected_faces,
                extrusion_vector,
            )
            &&& final(part)@.edges == old(part)@.edges + extruded_edges(
                old(part)@.selected_faces,
                extrusion_vector,
            )
            &&& final(part)@.faces == old(part)@.faces + extruded_faces(
                old(part)@.selected_faces,
                extrusion_vector,
            )
            &&& final(part)@.selected_vertices == old(part)@.selected_vertices
            &&& final(part)@.selected_edges == old(part)@.selected_edges
            &&& final(part)@.selected_faces == old(part)@.selected_faces
        },
{
    let d = extrusion_vector;
    if part.selected_faces.len() == 0 {
        return Err(EditorError::NoFacesSelected);
    }
    // Check every translated coordinate before touching the part, so a
    // rejected call leaves the part exactly as it was.
    let mut k: usize = 0;
    while k < part.selected_faces.len()
        invariant
            d == extrusion_vector,
            part == old(part),
            part@.wf(),
            k <= part@.selected_faces.len(),
            forall|kk: int|
                0 <= kk < k ==> extrusion_in_range(#[trigger] part@.selected_faces[kk], d),
        decreases part@.selected_faces.len() - k,
    {
        let f = &part.selected_faces[k];
        let ghost fv = part@.selected_faces[k as int];
        assert(f@ == fv);
        let mut i: usize = 0;
        while i < f.vertices.len()
            invariant
                d == extrusion_vector,
                part == old(part),
                part@.wf(),
                k < part@.selected_faces.len(),
                fv == part@.selected_faces[k as int],
                fv == f@,
                i <= fv.vertices.len(),
                forall|ii: int|
                    0 <= ii < i ==> sum_in_range((#[trigger] fv.vertices[ii]).coordinates, d),
            decreases fv.vertices.len() - i,
        {
            let c = f.vertices[i].coordinates;
            let sx = c.x as i128 + d.x as i128;
            let sy = c.y as i128 + d.y as i128;
            let sz = c.z as i128 + d.z as i128;
            let lim = COORD_LIMIT as i128;
            if sx < -lim || sx > lim || sy < -lim || sy > lim || sz < -lim || sz > lim {
                proof {
                    assert(!sum_in_range(fv.vertices[i as int].coordinates, d));
                    assert(!extrusion_in_range(fv, d));
                    assert(!all_extrusions_in_range(part@.selected_faces, d)) by {
                        assert(!extrusion_in_range(part@.selected_faces[k as int], d));
                    }
                    assert(part@.selected_faces == old(part)@.selected_faces);
                    assert(old(part)@.selected_faces.len() > 0);
                    assert(!all_extrusions_in_range(old(part)@.selected_faces, d));
                    assert(d == extrusion_vector);
                    assert(old(part)@.selected_faces.len() > 0 && !all_extrusions_in_range(
                        old(part)@.selected_faces,
                        extrusion_vector,
                    ));
                }
                return Err(EditorError::CoordinateOutOfRange);
            }
            i = i + 1;
        }
        proof {
            assert(extrusion_in_range(part@.selected_faces[k as int], d));
        }
        k = k + 1;
    }
    let ghost sel = part@.selected_faces;
    assert(all_extrusions_in_range(sel, d));

    let mut new_vertices: Vec<Vertex> = Vec::new();
    let mut new_edges: Vec<Edge> = Vec::new();
    let mut new_faces: Vec<Face> = Vec::new();
    let mut k: usize = 0;
    while k < part.selected_faces.len()
        invariant
            d == extrusion_vector,
            part == old(part),
            part@.wf(),
            sel == part@.selected_faces,
            all_extrusions_in_range(sel, d),
            k <= sel.len(),
            new_vertices@ == extruded_vertices(sel.take(k as int), d),
            new_edges@ == extruded_edges(sel.take(k as int), d),
            faces_view(new_faces@) == extruded_faces(sel.take(k as int), d),
            forall|i: int| 0 <= i < new_vertices@.len() ==> (#[trigger] new_vertices@[i]).in_range(),
            forall|i: int| 0 <= i < new_edges@.len() ==> (#[trigger] new_edges@[i]).in_range(),
            forall|i: int| 0 <= i < new_faces@.len() ==> (#[trigger] new_faces@[i])@.wf(),
        decreases sel.len() - k,
    {
        let ghost fv = sel[k as int];
        let f = &part.selected_faces[k];
        assert(f@ == fv);
        assert(fv.wf());
        assert(extrusion_in_range(fv, d));
        extrude_one_face(f, d, &mut new_vertices, &mut new_edges, &mut new_faces);
        proof {
            assert(sel.take(k + 1).drop_last() =~= sel.take(k as int));
            assert(sel.take(k + 1).last() == fv);
            assert(new_vertices@ == extruded_vertices(sel.take(k + 1), d));
            assert(new_edges@ == extruded_edges(sel.take(k + 1), d));
            assert(faces_view(new_faces@) == extruded_faces(sel.take(k + 1), d));
        }
        k = k + 1;
    }
    proof {
        assert(sel.take(sel.len() as int) =~= sel);
    }

    // Append the new geometry to the master lists in one step.
    let ghost v0 = part.vertices@;
    let ghost nv = new_vertices@;
    let ghost e0 = part.edges@;
    let ghost ne = new_edges@;
    let ghost f0 = part.faces@;
    let ghost nf = new_faces@;
    proof {
        assert(v0 == old(part)@.vertices);
        assert(e0 == old(part)@.edges);
        assert(faces_view(f0) == old(part)@.faces);
        assert(forall|j: int| 0 <= j < nv.len() ==> (#[trigger] nv[j]).in_range());
        assert(forall|j: int| 0 <= j < ne.len() ==> (#[trigger] ne[j]).in_range());
        assert(forall|j: int| 0 <= j < nf.len() ==> (#[trigger] nf[j])@.wf());
        assert forall|j: int| 0 <= j < v0.len() implies (#[trigger] v0[j]).in_range() by {
            assert(v0[j] == old(part)@.vertices[j]);
        }
        assert forall|j: int| 0 <= j < e0.len() implies (#[trigger] e0[j]).in_range() by {
            assert(e0[j] == old(part)@.edges[j]);
        }
        assert forall|j: int| 0 <= j < f0.len() implies (#[trigger] f0[j])@.wf() by {
            assert(f0[j]@ == faces_view(f0)[j]);
            assert(faces_view(f0)[j] == old(part)@.faces[j]);
        }
    }
    part.vertices.append(&mut new_vertices);
    part.edges.append(&mut new_edges);
    part.faces.append(&mut new_faces);
    proof {
        assert(part.vertices@ == v0 + nv);
        assert(part.edges@ == e0 + ne);
        assert(part.faces@ == f0 + nf);
        lemma_faces_view_add(f0, nf);
        assert(part@.faces == faces_view(f0) + faces_view(nf));
        assert forall|i: int| 0 <= i < part@.vertices.len() implies (
        #[trigger] part@.vertices[i]).in_range() by {
            if i < v0.len() {
                assert(part@.vertices[i] == v0[i]);
                assert(v0[i].in_range());
            } else {
                assert(part@.vertices[i] == nv[i - v0.len()]);
                assert(nv[i - v0.len()].in_range());
            }
        }
        assert forall|i: int| 0 <= i < part@.edges.len() implies (
        #[trigger] part@.edges[i]).in_range() by {
            if i < e0.len() {
                assert(part@.edges[i] == e0[i]);
                assert(e0[i].in_range());
            } else {
                assert(part@.edges[i] == ne[i - e0.len()]);
                assert(ne[i - e0.len()].in_range());
            }
        }
        assert forall|i: int| 0 <= i < part@.faces.len() implies (#[trigger] part@.faces[i]).wf()
            by {
            if i < f0.len() {
                assert(part@.faces[i] == faces_view(f0)[i]);
                assert(faces_view(f0)[i] == f0[i]@);
                assert(f0[i]@.wf());
            } else {
                assert(part@.faces[i] == faces_view(nf)[i - f0.len()]);
                assert(faces_view(nf)[i - f0.len()] == nf[i - f0.len()]@);
                assert(nf[i - f0.len()]@.wf());
            }
        }
        assert(part@.selected_faces == old(part)@.selected_faces);
        assert(part@.selected_vertices == old(part)@.selected_vertices);
        assert(part@.selected_edges == old(part)@.selected_edges);
        assert forall|i: int| 0 <= i < part@.selected_faces.len() implies (
        #[trigger] part@.selected_faces[i]).wf() by {
            assert(part@.selected_faces[i] == old(part)@.selected_faces[i]);
        }
        assert forall|i: int| 0 <= i < part@.selected_vertices.len() implies (
        #[trigger] part@.selected_vertices[i]).in_range() by {
            assert(part@.selected_vertices[i] == old(part)@.selected_vertices[i]);
        }
        assert forall|i: int| 0 <= i < part@.selected_edges.len() implies (
        #[trigger] part@.selected_edges[i]).in_range() by {
            assert(part@.selected_edges[i] == old(part)@.selected_edges[i]);
        }
        assert forall|i: int| 0 <= i < part@.selected_faces.len() implies face_in(
            part@.faces,
            #[trigger] part@.selected_faces[i],
        ) by {
            assert(face_in(old(part)@.faces, part@.selected_faces[i]));
            let j = choose|j: int|
                0 <= j < old(part)@.faces.len() && spec_face_eq(
                    part@.selected_faces[i],
                    #[trigger] old(part)@.faces[j],
                );
            assert(part@.faces[j] == old(part)@.faces[j]);
        }
        assert(part@.wf());
    }
    Ok(())
}

} // verus!
