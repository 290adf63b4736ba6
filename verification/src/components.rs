//! The geometry model: vertices, edges, faces and parts.
//!
//! A `Part` owns its vertex, edge and face lists together with the three
//! selection lists, which hold copies of selected elements rather than
//! indices. Faces carry their boundary as an ordered vertex cycle, a
//! parallel edge cycle, and a winding normal: the exact (unnormalized)
//! cross product of the vectors from vertex 0 to vertices 1 and 2.
//!
//! Contracts speak about faces and parts through their views (`FaceView`,
//! `PartView`), which replace the vertex and edge vectors by sequences.

use vstd::prelude::*;

use crate::vec3_rounded::{
    Vec3Rounded, near, same_direction, cross_x, cross_y, cross_z, is_near, is_same_direction,
    dist_sq, lemma_dist_sq_symmetric, lemma_dist_sq_triangle, lemma_same_direction_reflexive,
    lemma_same_direction_symmetric, EPS_SQ,
};
use vstd::set_lib::{set_int_range, lemma_int_range, lemma_len_subset};

verus! {

/// A point of a part; a value type with no identity beyond its coordinates.
#[derive(Clone, Copy, Debug, PartialEq, Eq, Structural)]
pub struct Vertex {
    pub coordinates: Vec3Rounded,
}

/// An ordered pair of vertices; directionless geometrically, but stored
/// with the direction of the face winding it came from.
#[derive(Clone, Copy, Debug, PartialEq, Eq, Structural)]
pub struct Edge {
    pub start: Vertex,
    pub end: Vertex,
}

/// A planar polygon: a consistently wound vertex cycle, the matching edge
/// cycle, and the winding normal.
#[derive(Debug)]
pub struct Face {
    pub vertices: Vec<Vertex>,
    pub edges: Vec<Edge>,
    pub normal: Vec3Rounded,
}

/// The mathematical model of a face.
#[verifier::ext_equal]
pub struct FaceView {
    pub vertices: Seq<Vertex>,
    pub edges: Seq<Edge>,
    pub normal: Vec3Rounded,
}

/// The unit of topology: the master lists plus the selection lists.
#[derive(Debug)]
pub struct Part {
    pub vertices: Vec<Vertex>,
    pub edges: Vec<Edge>,
    pub faces: Vec<Face>,
    pub selected_vertices: Vec<Vertex>,
    pub selected_edges: Vec<Edge>,
    pub selected_faces: Vec<Face>,
}

/// The mathematical model of a part.
#[verifier::ext_equal]
pub struct PartView {
    pub vertices: Seq<Vertex>,
    pub edges: Seq<Edge>,
    pub faces: Seq<FaceView>,
    pub selected_vertices: Seq<Vertex>,
    pub selected_edges: Seq<Edge>,
    pub selected_faces: Seq<FaceView>,
}

/// Direction and distance of an extrusion request.
#[derive(Clone, Copy, Debug, PartialEq, Eq, Structural)]
pub struct ExtrusionParams {
    pub direction: Vec3Rounded,
    pub distance: i64,
}

/// What a core operation can report instead of succeeding.
#[derive(Clone, Copy, Debug, PartialEq, Eq, Structural)]
pub enum EditorError {
    /// An extrusion was requested while no face was selected.
    NoFacesSelected,
    /// An operation would have produced a coordinate beyond `COORD_LIMIT`.
    CoordinateOutOfRange,
    /// The topology builder was handed a point list whose length is not 8.
    InvalidPointCount,
    /// An index did not name an existing part or face.
    NoSuchElement,
}

/// The view sequence of a face vector.
pub open spec fn faces_view(fs: Seq<Face>) -> Seq<FaceView> {
    Seq::new(fs.len(), |i: int| fs[i]@)
}

impl View for Face {
    type V = FaceView;

    open spec fn view(&self) -> FaceView {
        FaceView { vertices: self.vertices@, edges: self.edges@, normal: self.normal }
    }
}

impl View for Part {
    type V = PartView;

    open spec fn view(&self) -> PartView {
        PartView {
            vertices: self.vertices@,
            edges: self.edges@,
            faces: faces_view(self.faces@),
            selected_vertices: self.selected_vertices@,
            selected_edges: self.selected_edges@,
            selected_faces: faces_view(self.selected_faces@),
        }
    }
}

/// The vertex sequence a point sequence wraps to, one to one.
pub open spec fn verts_of_points(ps: Seq<Vec3Rounded>) -> Seq<Vertex> {
    Seq::new(ps.len(), |i: int| Vertex { coordinates: ps[i] })
}

/// The coordinate sequence of a vertex sequence.
pub open spec fn coords_of(vs: Seq<Vertex>) -> Seq<Vec3Rounded> {
    Seq::new(vs.len(), |i: int| vs[i].coordinates)
}

/// The winding normal of a polygon boundary: the exact cross product of
/// the vectors from vertex 0 to vertices 1 and 2. With fewer than three
/// vertices there is no plane; the +Z axis is the well-defined default.
pub open spec fn normal_of(ps: Seq<Vec3Rounded>) -> Vec3Rounded {
    if ps.len() < 3 {
        Vec3Rounded { x: 0, y: 0, z: 1 }
    } else {
        let u = Vec3Rounded {
            x: (ps[1].x - ps[0].x) as i64,
            y: (ps[1].y - ps[0].y) as i64,
            z: (ps[1].z - ps[0].z) as i64,
        };
        let v = Vec3Rounded {
            x: (ps[2].x - ps[0].x) as i64,
            y: (ps[2].y - ps[0].y) as i64,
            z: (ps[2].z - ps[0].z) as i64,
        };
        Vec3Rounded {
            x: cross_x(u, v) as i64,
            y: cross_y(u, v) as i64,
            z: cross_z(u, v) as i64,
        }
    }
}

/// The edge cycle of a vertex cycle: edge `i` runs from vertex `i` to
/// vertex `i + 1`, wrapping at the end.
pub open spec fn edge_cycle(vs: Seq<Vertex>) -> Seq<Edge> {
    Seq::new(vs.len(), |i: int| Edge { start: vs[i], end: vs[(i + 1) % (vs.len() as int)] })
}

/// The face a vertex cycle spans: the cycle, its edges, and its winding
/// normal.
pub open spec fn face_of_verts(vs: Seq<Vertex>) -> FaceView {
    FaceView { vertices: vs, edges: edge_cycle(vs), normal: normal_of(coords_of(vs)) }
}

impl Vertex {
    pub open spec fn in_range(self) -> bool {
        self.coordinates.in_range()
    }

    pub fn new(x: i64, y: i64, z: i64) -> (v: Vertex)
        ensures
            v.coordinates == (Vec3Rounded { x, y, z }),
    {
        Vertex { coordinates: Vec3Rounded { x, y, z } }
    }

    pub fn get_coordinates(&self) -> (c: Vec3Rounded)
        ensures
            c == self.coordinates,
    {
        self.coordinates
    }

    pub fn point_to_vertex(point: Vec3Rounded) -> (v: Vertex)
        ensures
            v == (Vertex { coordinates: point }),
    {
        Vertex { coordinates: point }
    }

    pub fn points_to_vertices(points: &Vec<Vec3Rounded>) -> (vs: Vec<Vertex>)
        ensures
            vs@ == verts_of_points(points@),
    {
        let mut vs: Vec<Vertex> = Vec::new();
        let mut i: usize = 0;
        while i < points.len()
            invariant
                i <= points@.len(),
                vs@ =~= verts_of_points(points@).take(i as int),
            decreases points@.len() - i,
        {
            vs.push(Vertex { coordinates: points[i] });
            i = i + 1;
        }
        proof {
            assert(vs@ =~= verts_of_points(points@));
        }
        vs
    }
}

impl Edge {
    pub open spec fn in_range(self) -> bool {
        self.start.in_range() && self.end.in_range()
    }

    pub fn new(start: Vertex, end: Vertex) -> (e: Edge)
        ensures
            e == (Edge { start, end }),
    {
        Edge { start, end }
    }

    pub fn with_points(points: Vec<Vec3Rounded>) -> (e: Edge)
        requires
            points@.len() >= 2,
        ensures
            e == (Edge {
                start: Vertex { coordinates: points@[0] },
                end: Vertex { coordinates: points@[1] },
            }),
    {
        Edge {
            start: Vertex { coordinates: points[0] },
            end: Vertex { coordinates: points[1] },
        }
    }

    pub fn with_vertices(vertices: Vec<Vertex>) -> (e: Edge)
        requires
            vertices@.len() >= 2,
        ensures
            e == (Edge { start: vertices@[0], end: vertices@[1] }),
    {
        Edge { start: vertices[0], end: vertices[1] }
    }

    pub fn get_vertices(&self) -> (vs: Vec<Vertex>)
        ensures
            vs@ =~= seq![self.start, self.end],
    {
        let mut vs: Vec<Vertex> = Vec::new();
        vs.push(self.start);
        vs.push(self.end);
        vs
    }
}

/// Copies a vertex list element for element.
pub fn copy_vertices(vs: &Vec<Vertex>) -> (r: Vec<Vertex>)
    ensures
        r@ == vs@,
{
    let mut r: Vec<Vertex> = Vec::new();
    let mut i: usize = 0;
    while i < vs.len()
        invariant
            i <= vs@.len(),
            r@ =~= vs@.take(i as int),
        decreases vs@.len() - i,
    {
        r.push(vs[i]);
        i = i + 1;
    }
    proof {
        assert(r@ =~= vs@);
    }
    r
}

/// Copies an edge list element for element.
pub fn copy_edges(es: &Vec<Edge>) -> (r: Vec<Edge>)
    ensures
        r@ == es@,
{
    let mut r: Vec<Edge> = Vec::new();
    let mut i: usize = 0;
    while i < es.len()
        invariant
            i <= es@.len(),
            r@ =~= es@.take(i as int),
        decreases es@.len() - i,
    {
        r.push(es[i]);
        i = i + 1;
    }
    proof {
        assert(r@ =~= es@);
    }
    r
}

/// Some vertex of the sequence is near the given point.
pub open spec fn has_near(vs: Seq<Vertex>, c: Vec3Rounded) -> bool {
    exists|j: int| 0 <= j < vs.len() && near(c, (#[trigger] vs[j]).coordinates)
}

/// Face equality: same vertex count, winding normals pointing the same
/// way, and every vertex of the first present — within the tolerance —
/// among the vertices of the second. This is the only face identity the
/// model has.
pub open spec fn spec_face_eq(f: FaceView, g: FaceView) -> bool {
    &&& f.vertices.len() == g.vertices.len()
    &&& same_direction(f.normal, g.normal)
    &&& forall|i: int|
        0 <= i < f.vertices.len() ==> has_near(g.vertices, (#[trigger] f.vertices[i]).coordinates)
}

/// The face equals some member of the list.
pub open spec fn face_in(faces: Seq<FaceView>, f: FaceView) -> bool {
    exists|j: int| 0 <= j < faces.len() && spec_face_eq(f, #[trigger] faces[j])
}

/// The vertices of the boundary keep a clear mutual distance: every two
/// distinct boundary vertices are at least twice the tolerance apart (in
/// squared distance, four times `EPS_SQ`). Every face whose corners do
/// not crowd within the tolerance satisfies this.
pub open spec fn separated_verts(vs: Seq<Vertex>) -> bool {
    forall|i: int, j: int|
        0 <= i < j < vs.len() ==> dist_sq(
            (#[trigger] vs[i]).coordinates,
            (#[trigger] vs[j]).coordinates,
        ) >= 4 * EPS_SQ
}

/// Law: face equality is reflexive — every face equals itself.
pub proof fn lemma_face_eq_reflexive(f: FaceView)
    ensures
        spec_face_eq(f, f),
{
    lemma_same_direction_reflexive(f.normal);
    assert forall|i: int| 0 <= i < f.vertices.len() implies has_near(
        f.vertices,
        (#[trigger] f.vertices[i]).coordinates,
    ) by {
        assert(near(f.vertices[i].coordinates, f.vertices[i].coordinates));
    }
}

impl FaceView {
    /// Structural well-formedness: the edge cycle mirrors the vertex
    /// cycle, all coordinates are in range, and the stored normal is the
    /// winding normal of the boundary.
    pub open spec fn wf(self) -> bool {
        &&& self.edges == edge_cycle(self.vertices)
        &&& forall|i: int| 0 <= i < self.vertices.len() ==> (#[trigger] self.vertices[i]).in_range()
        &&& self.normal == normal_of(coords_of(self.vertices))
        &&& self.normal.normal_in_range()
    }
}

impl Face {
    pub fn get_vertices(&self) -> (vs: Vec<Vertex>)
        ensures
            vs@ == self@.vertices,
    {
        copy_vertices(&self.vertices)
    }

    pub fn copy(&self) -> (f: Face)
        ensures
            f@ == self@,
    {
        Face {
            vertices: copy_vertices(&self.vertices),
            edges: copy_edges(&self.edges),
            normal: self.normal,
        }
    }

    /// Decides face equality.
    pub fn face_eq(&self, other: &Face) -> (r: bool)
        requires
            self@.wf(),
            other@.wf(),
        ensures
            r == spec_face_eq(self@, other@),
    {
        if self.vertices.len() != other.vertices.len() {
            return false;
        }
        if !is_same_direction(&self.normal, &other.normal) {
            return false;
        }
        let mut i: usize = 0;
        while i < self.vertices.len()
            invariant
                self@.wf(),
                other@.wf(),
                i <= self@.vertices.len(),
                forall|ii: int|
                    0 <= ii < i ==> has_near(
                        other@.vertices,
                        (#[trigger] self@.vertices[ii]).coordinates,
                    ),
            decreases self@.vertices.len() - i,
        {
            if !has_near_vertex(&other.vertices, &self.vertices[i].coordinates) {
                return false;
            }
            i = i + 1;
        }
        true
    }
}

/// Decides whether some vertex of the list is near the given point.
pub fn has_near_vertex(vs: &Vec<Vertex>, c: &Vec3Rounded) -> (r: bool)
    requires
        c.in_range(),
        forall|i: int| 0 <= i < vs@.len() ==> (#[trigger] vs@[i]).in_range(),
    ensures
        r == has_near(vs@, *c),
{
    let mut j: usize = 0;
    while j < vs.len()
        invariant
            c.in_range(),
            forall|i: int| 0 <= i < vs@.len() ==> (#[trigger] vs@[i]).in_range(),
            j <= vs@.len(),
            forall|jj: int| 0 <= jj < j ==> !near(*c, (#[trigger] vs@[jj]).coordinates),
        decreases vs@.len() - j,
    {
        if is_near(c, &vs[j].coordinates) {
            return true;
        }
        j = j + 1;
    }
    false
}

impl PartView {
    /// Every element of every list is in range, every face and every
    /// selected face is well formed, and every selected face equals some
    /// face of the part.
    pub open spec fn wf(self) -> bool {
        &&& forall|i: int| 0 <= i < self.vertices.len() ==> (#[trigger] self.vertices[i]).in_range()
        &&& forall|i: int| 0 <= i < self.edges.len() ==> (#[trigger] self.edges[i]).in_range()
        &&& forall|i: int| 0 <= i < self.faces.len() ==> (#[trigger] self.faces[i]).wf()
        &&& forall|i: int|
            0 <= i < self.selected_faces.len() ==> (#[trigger] self.selected_faces[i]).wf()
        &&& forall|i: int|
            0 <= i < self.selected_faces.len() ==> face_in(
                self.faces,
                #[trigger] self.selected_faces[i],
            )
        &&& forall|i: int|
            0 <= i < self.selected_vertices.len() ==> (
            #[trigger] self.selected_vertices[i]).in_range()
        &&& forall|i: int|
            0 <= i < self.selected_edges.len() ==> (#[trigger] self.selected_edges[i]).in_range()
    }

    /// True when all three selection lists are empty.
    pub open spec fn selections_empty(self) -> bool {
        &&& self.selected_vertices.len() == 0
        &&& self.selected_edges.len() == 0
        &&& self.selected_faces.len() == 0
    }
}

/// If one face equals another and its own vertices are separated, the
/// equality also holds the other way around.
proof fn lemma_face_eq_flip(f: FaceView, g: FaceView)
    requires
        separated_verts(f.vertices),
        spec_face_eq(f, g),
    ensures
        spec_face_eq(g, f),
{
    let n = f.vertices.len() as int;
    assert(g.vertices.len() == n);
    lemma_same_direction_symmetric(f.normal, g.normal);
    if n == 0 {
        return ;
    }
    // For each vertex of f, pick a near vertex of g; separation makes
    // the choice injective, so every vertex of g is picked, and nearness
    // is symmetric.
    let m = Seq::new(
        n as nat,
        |i: int|
            choose|j: int|
                0 <= j < g.vertices.len() && near(
                    f.vertices[i].coordinates,
                    g.vertices[j].coordinates,
                ),
    );
    assert forall|i: int| 0 <= i < n implies 0 <= m[i] < n && near(
        f.vertices[i].coordinates,
        g.vertices[m[i]].coordinates,
    ) by {
        assert(has_near(g.vertices, f.vertices[i].coordinates));
        assert(exists|j: int|
            0 <= j < g.vertices.len() && near(
                f.vertices[i].coordinates,
                g.vertices[j].coordinates,
            ));
    }
    assert forall|i1: int, i2: int| 0 <= i1 < i2 < n implies m[i1] != m[i2] by {
        if m[i1] == m[i2] {
            let c = g.vertices[m[i1]].coordinates;
            lemma_dist_sq_symmetric(f.vertices[i1].coordinates, c);
            lemma_dist_sq_triangle(f.vertices[i1].coordinates, c, f.vertices[i2].coordinates);
            lemma_dist_sq_symmetric(c, f.vertices[i2].coordinates);
            assert(dist_sq(f.vertices[i1].coordinates, f.vertices[i2].coordinates) < 4 * EPS_SQ);
        }
    }
    assert(m.no_duplicates());
    assert forall|jj: int| 0 <= jj < n implies has_near(
        f.vertices,
        (#[trigger] g.vertices[jj]).coordinates,
    ) by {
        if !has_near(f.vertices, g.vertices[jj].coordinates) {
            assert forall|i: int| 0 <= i < n implies m[i] != jj by {
                if m[i] == jj {
                    lemma_dist_sq_symmetric(
                        f.vertices[i].coordinates,
                        g.vertices[jj].coordinates,
                    );
                    assert(near(g.vertices[jj].coordinates, f.vertices[i].coordinates));
                }
            }
            m.unique_seq_to_set();
            lemma_int_range(0, n);
            let range_without = set_int_range(0, n).remove(jj);
            assert(set_int_range(0, n).contains(jj));
            assert(range_without.len() == n - 1);
            assert forall|x: int| m.to_set().contains(x) implies range_without.contains(x) by {
                assert(m.contains(x));
                let i = choose|i: int| 0 <= i < m.len() && m[i] == x;
                assert(0 <= x < n && x != jj);
            }
            assert(m.to_set().subset_of(range_without));
            lemma_len_subset(m.to_set(), range_without);
            assert(false);
        }
    }
}

/// Law: on faces whose boundary vertices keep a clear mutual distance
/// (`separated_verts`), face equality is symmetric. Faces with vertices
/// crowded within the tolerance can defeat symmetry: two coincident
/// vertices in one face can both match a single vertex of the other.
pub proof fn lemma_face_eq_symmetric(f: FaceView, g: FaceView)
    requires
        separated_verts(f.vertices),
        separated_verts(g.vertices),
    ensures
        spec_face_eq(f, g) == spec_face_eq(g, f),
{
    if spec_face_eq(f, g) {
        lemma_face_eq_flip(f, g);
    }
    if spec_face_eq(g, f) {
        lemma_face_eq_flip(g, f);
    }
}

/// A part stays well formed when only its selection lists change, as
/// long as the new selected faces are well formed and equal faces of the
/// part, and the other selection lists are kept or emptied.
pub proof fn lemma_wf_selections_changed(pre: PartView, post: PartView)
    requires
        pre.wf(),
        post.vertices == pre.vertices,
        post.edges == pre.edges,
        post.faces == pre.faces,
        forall|i: int| 0 <= i < post.selected_faces.len() ==> (#[trigger] post.selected_faces[i]).wf(),
        forall|i: int|
            0 <= i < post.selected_faces.len() ==> face_in(
                post.faces,
                #[trigger] post.selected_faces[i],
            ),
        post.selected_vertices == pre.selected_vertices || post.selected_vertices.len() == 0,
        post.selected_edges == pre.selected_edges || post.selected_edges.len() == 0,
    ensures
        post.wf(),
{
    assert forall|i: int| 0 <= i < post.selected_vertices.len() implies (
    #[trigger] post.selected_vertices[i]).in_range() by {
        assert(post.selected_vertices[i] == pre.selected_vertices[i]);
    }
    assert forall|i: int| 0 <= i < post.selected_edges.len() implies (
    #[trigger] post.selected_edges[i]).in_range() by {
        assert(post.selected_edges[i] == pre.selected_edges[i]);
    }
    assert forall|i: int| 0 <= i < post.vertices.len() implies (
    #[trigger] post.vertices[i]).in_range() by {
        assert(post.vertices[i] == pre.vertices[i]);
    }
    assert forall|i: int| 0 <= i < post.edges.len() implies (
    #[trigger] post.edges[i]).in_range() by {
        assert(post.edges[i] == pre.edges[i]);
    }
    assert forall|i: int| 0 <= i < post.faces.len() implies (#[trigger] post.faces[i]).wf() by {
        assert(post.faces[i] == pre.faces[i]);
    }
}

impl Part {
    pub fn new() -> (p: Part)
        ensures
            p@.vertices.len() == 0,
            p@.edges.len() == 0,
            p@.faces.len() == 0,
            p@.selections_empty(),
            p@.wf(),
    {
        Part {
            vertices: Vec::new(),
            edges: Vec::new(),
            faces: Vec::new(),
            selected_vertices: Vec::new(),
            selected_edges: Vec::new(),
            selected_faces: Vec::new(),
        }
    }

    pub fn with_points(points: Vec<Vec3Rounded>) -> (p: Part)
        requires
            forall|i: int| 0 <= i < points@.len() ==> (#[trigger] points@[i]).in_range(),
        ensures
            p@.vertices == verts_of_points(points@),
            p@.edges.len() == 0,
            p@.faces.len() == 0,
            p@.selections_empty(),
            p@.wf(),
    {
        let p = Part {
            vertices: Vertex::points_to_vertices(&points),
            edges: Vec::new(),
            faces: Vec::new(),
            selected_vertices: Vec::new(),
            selected_edges: Vec::new(),
            selected_faces: Vec::new(),
        };
        p
    }
}

} // verus!
