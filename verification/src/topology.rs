//! The topology builder: from eight ordered corner points to a fully
//! connected cuboid with 12 edges and 6 faces.

use vstd::prelude::*;

use crate::vec3_rounded::{Vec3Rounded, lemma_mul_bound};
use crate::components::{
    Vertex, Edge, Face, FaceView, Part, verts_of_points, coords_of, normal_of, edge_cycle,
    face_of_verts, faces_view,
};

verus! {

/// The twelve edges of a cuboid over the eight corner vertices: the four
/// front edges, the four back edges, and the four connecting edges.
pub open spec fn cube_edges(vs: Seq<Vertex>) -> Seq<Edge> {
    seq![
        Edge { start: vs[0], end: vs[1] },
        Edge { start: vs[1], end: vs[2] },
        Edge { start: vs[2], end: vs[3] },
        Edge { start: vs[3], end: vs[0] },
        Edge { start: vs[4], end: vs[5] },
        Edge { start: vs[5], end: vs[6] },
        Edge { start: vs[6], end: vs[7] },
        Edge { start: vs[7], end: vs[4] },
        Edge { start: vs[0], end: vs[4] },
        Edge { start: vs[1], end: vs[5] },
        Edge { start: vs[2], end: vs[6] },
        Edge { start: vs[3], end: vs[7] },
    ]
}

/// The six faces of a cuboid over the eight corner vertices: front, back,
/// right, left, top, bottom, each as a wound vertex cycle.
pub open spec fn cube_faces(vs: Seq<Vertex>) -> Seq<FaceView> {
    seq![
        face_of_verts(seq![vs[0], vs[1], vs[2], vs[3]]),
        face_of_verts(seq![vs[4], vs[5], vs[6], vs[7]]),
        face_of_verts(seq![vs[1], vs[2], vs[6], vs[5]]),
        face_of_verts(seq![vs[0], vs[3], vs[7], vs[4]]),
        face_of_verts(seq![vs[2], vs[3], vs[7], vs[6]]),
        face_of_verts(seq![vs[0], vs[1], vs[5], vs[4]]),
    ]
}

/// Computes the winding normal of a polygon boundary.
pub fn calculate_face_normal(points: &Vec<Vec3Rounded>) -> (n: Vec3Rounded)
    requires
        forall|i: int| 0 <= i < points@.len() ==> (#[trigger] points@[i]).in_range(),
    ensures
        n == normal_of(points@),
        n.normal_in_range(),
{
    if points.len() < 3 {
        return Vec3Rounded { x: 0, y: 0, z: 1 };
    }
    let p0 = points[0];
    let p1 = points[1];
    let p2 = points[2];
    let ux = p1.x - p0.x;
    let uy = p1.y - p0.y;
    let uz = p1.z - p0.z;
    let vx = p2.x - p0.x;
    let vy = p2.y - p0.y;
    let vz = p2.z - p0.z;
    proof {
        lemma_mul_bound(uy as int, vz as int, 2_000_000, 2_000_000);
        lemma_mul_bound(uz as int, vy as int, 2_000_000, 2_000_000);
        lemma_mul_bound(uz as int, vx as int, 2_000_000, 2_000_000);
        lemma_mul_bound(ux as int, vz as int, 2_000_000, 2_000_000);
        lemma_mul_bound(ux as int, vy as int, 2_000_000, 2_000_000);
        lemma_mul_bound(uy as int, vx as int, 2_000_000, 2_000_000);
    }
    let nx = uy * vz - uz * vy;
    let ny = uz * vx - ux * vz;
    let nz = ux * vy - uy * vx;
    Vec3Rounded { x: nx, y: ny, z: nz }
}

/// Builds the edge cycle of a vertex cycle.
pub fn cycle_edges(vertices: &Vec<Vertex>) -> (es: Vec<Edge>)
    ensures
        es@ == edge_cycle(vertices@),
{
    let n = vertices.len();
    let mut es: Vec<Edge> = Vec::new();
    let mut i: usize = 0;
    while i < n
        invariant
            n == vertices@.len(),
            i <= n,
            es@ =~= edge_cycle(vertices@).take(i as int),
        decreases n - i,
    {
        let next = if i + 1 == n { 0 } else { i + 1 };
        proof {
            if i + 1 == n {
                vstd::arithmetic::div_mod::lemma_mod_self_0(n as int);
            } else {
                vstd::arithmetic::div_mod::lemma_small_mod((i + 1) as nat, n as nat);
            }
        }
        es.push(Edge { start: vertices[i], end: vertices[next] });
        i = i + 1;
    }
    proof {
        assert(es@ =~= edge_cycle(vertices@));
    }
    es
}

/// Builds the face over a wound vertex cycle: the matching edge cycle and
/// the winding normal.
pub fn make_face(vertices: Vec<Vertex>) -> (f: Face)
    requires
        forall|i: int| 0 <= i < vertices@.len() ==> (#[trigger] vertices@[i]).in_range(),
    ensures
        f@ == face_of_verts(vertices@),
        f@.wf(),
{
    let n = vertices.len();
    let edges = cycle_edges(&vertices);
    let mut coords: Vec<Vec3Rounded> = Vec::new();
    let mut j: usize = 0;
    while j < n
        invariant
            n == vertices@.len(),
            j <= n,
            forall|i: int| 0 <= i < vertices@.len() ==> (#[trigger] vertices@[i]).in_range(),
            coords@ =~= coords_of(vertices@).take(j as int),
        decreases n - j,
    {
        coords.push(vertices[j].coordinates);
        j = j + 1;
    }
    proof {
        assert(coords@ =~= coords_of(vertices@));
    }
    let normal = calculate_face_normal(&coords);
    Face { vertices, edges, normal }
}

/// Builds a quad face over four corner vertices.
pub fn quad_face(a: Vertex, b: Vertex, c: Vertex, d: Vertex) -> (f: Face)
    requires
        a.in_range(),
        b.in_range(),
        c.in_range(),
        d.in_range(),
    ensures
        f@ == face_of_verts(seq![a, b, c, d]),
        f@.wf(),
{
    let mut vs: Vec<Vertex> = Vec::new();
    vs.push(a);
    vs.push(b);
    vs.push(c);
    vs.push(d);
    proof {
        assert(vs@ =~= seq![a, b, c, d]);
    }
    make_face(vs)
}

/// Connects the eight corner vertices by the fixed cuboid edge table.
pub fn create_edges_from_vertices(vertices: &Vec<Vertex>) -> (es: Vec<Edge>)
    requires
        vertices@.len() == 8,
    ensures
        es@ == cube_edges(vertices@),
{
    let mut es: Vec<Edge> = Vec::new();
    es.push(Edge { start: vertices[0], end: vertices[1] });
    es.push(Edge { start: vertices[1], end: vertices[2] });
    es.push(Edge { start: vertices[2], end: vertices[3] });
    es.push(Edge { start: vertices[3], end: vertices[0] });
    es.push(Edge { start: vertices[4], end: vertices[5] });
    es.push(Edge { start: vertices[5], end: vertices[6] });
    es.push(Edge { start: vertices[6], end: vertices[7] });
    es.push(Edge { start: vertices[7], end: vertices[4] });
    es.push(Edge { start: vertices[0], end: vertices[4] });
    es.push(Edge { start: vertices[1], end: vertices[5] });
    es.push(Edge { start: vertices[2], end: vertices[6] });
    es.push(Edge { start: vertices[3], end: vertices[7] });
    proof {
        assert(es@ =~= cube_edges(vertices@));
    }
    es
}

/// Builds the six cuboid faces from the fixed edge table, reading the
/// corner vertices back off the edge starts.
pub fn create_faces_from_edges(edges: &Vec<Edge>) -> (fs: Vec<Face>)
    requires
        edges@.len() == 12,
        forall|i: int| 0 <= i < edges@.len() ==> (#[trigger] edges@[i]).in_range(),
    ensures
        faces_view(fs@) =~= cube_faces(
            seq![
                edges@[0].start,
                edges@[1].start,
                edges@[2].start,
                edges@[3].start,
                edges@[4].start,
                edges@[5].start,
                edges@[6].start,
                edges@[7].start,
            ],
        ),
        forall|i: int| 0 <= i < fs@.len() ==> (#[trigger] faces_view(fs@)[i]).wf(),
{
    let v0 = edges[0].start;
    let v1 = edges[1].start;
    let v2 = edges[2].start;
    let v3 = edges[3].start;
    let v4 = edges[4].start;
    let v5 = edges[5].start;
    let v6 = edges[6].start;
    let v7 = edges[7].start;
    let mut fs: Vec<Face> = Vec::new();
    fs.push(quad_face(v0, v1, v2, v3));
    fs.push(quad_face(v4, v5, v6, v7));
    fs.push(quad_face(v1, v2, v6, v5));
    fs.push(quad_face(v0, v3, v7, v4));
    fs.push(quad_face(v2, v3, v7, v6));
    fs.push(quad_face(v0, v1, v5, v4));
    fs
}

/// Builds a part from eight ordered corner points: wraps each point as a
/// vertex, connects the twelve edges from the fixed index table, and
/// builds the six wound faces with their winding normals.
pub fn build_part(points: &Vec<Vec3Rounded>) -> (p: Part)
    requires
        points@.len() == 8,
        forall|i: int| 0 <= i < points@.len() ==> (#[trigger] points@[i]).in_range(),
    ensures
        p@.vertices == verts_of_points(points@),
        p@.edges == cube_edges(verts_of_points(points@)),
        p@.faces =~= cube_faces(verts_of_points(points@)),
        p@.vertices.len() == 8,
        p@.edges.len() == 12,
        p@.faces.len() == 6,
        p@.selections_empty(),
        p@.wf(),
{
    let vertices = Vertex::points_to_vertices(points);
    let edges = create_edges_from_vertices(&vertices);
    let faces = create_faces_from_edges(&edges);
    let p = Part {
        vertices,
        edges,
        faces,
        selected_vertices: Vec::new(),
        selected_edges: Vec::new(),
        selected_faces: Vec::new(),
    };
    proof {
        assert(p@.faces =~= cube_faces(verts_of_points(points@)));
    }
    p
}

} // verus!
