use brep_editor::vec3_rounded::{Vec3Rounded, GRID_SCALE, COORD_LIMIT};
use brep_editor::components::{Vertex, Edge, Part, EditorError};
use brep_editor::primitives::CubePoints;
use brep_editor::topology::{build_part, calculate_face_normal, create_edges_from_vertices};
use brep_editor::extrude::extrude_faces;
use brep_editor::selection::{EditorMode, handle_face_selection};
use brep_editor::mesh::{dedup_points, face_mesh_data};

fn unit_cube() -> Part {
    build_part(&CubePoints::get_points())
}

#[test]
fn test_build_part_counts() {
    let part = unit_cube();
    assert_eq!(part.vertices.len(), 8);
    assert_eq!(part.edges.len(), 12);
    assert_eq!(part.faces.len(), 6);
    for face in &part.faces {
        assert_eq!(face.vertices.len(), 4);
        assert_eq!(face.edges.len(), 4);
        // every face normal is a nonzero winding cross product
        assert!(face.normal != Vec3Rounded::new(0, 0, 0));
        // the edge cycle reconstructs the vertex cycle
        for i in 0..4 {
            assert_eq!(face.edges[i].start, face.vertices[i]);
            assert_eq!(face.edges[i].end, face.vertices[(i + 1) % 4]);
        }
    }
}

#[test]
fn test_cube_edge_table() {
    let part = unit_cube();
    let expected = [
        (0, 1), (1, 2), (2, 3), (3, 0),
        (4, 5), (5, 6), (6, 7), (7, 4),
        (0, 4), (1, 5), (2, 6), (3, 7),
    ];
    for (k, (s, e)) in expected.iter().enumerate() {
        assert_eq!(part.edges[k].start, part.vertices[*s]);
        assert_eq!(part.edges[k].end, part.vertices[*e]);
    }
}

#[test]
fn test_front_face_normal_round_trip() {
    // The face built from (0,0,0), (1,0,0), (1,1,0), (0,1,0) carries the
    // winding-derived cross product exactly: +Z scaled by GRID_SCALE^2.
    let part = unit_cube();
    let front = &part.faces[0];
    assert_eq!(front.normal, Vec3Rounded::new(0, 0, GRID_SCALE * GRID_SCALE));
    // recompute the cross product of the winding by hand
    let p0 = front.vertices[0].coordinates;
    let p1 = front.vertices[1].coordinates;
    let p2 = front.vertices[2].coordinates;
    let (ux, uy, uz) = (p1.x - p0.x, p1.y - p0.y, p1.z - p0.z);
    let (vx, vy, vz) = (p2.x - p0.x, p2.y - p0.y, p2.z - p0.z);
    let cross = Vec3Rounded::new(uy * vz - uz * vy, uz * vx - ux * vz, ux * vy - uy * vx);
    assert_eq!(front.normal, cross);
    let mut coords = Vec::new();
    for v in &front.vertices {
        coords.push(v.coordinates);
    }
    assert_eq!(calculate_face_normal(&coords), cross);
}

#[test]
fn test_calculate_face_normal_degenerate() {
    // fewer than three points: the well-defined default axis
    let points = vec![Vec3Rounded::new(1, 2, 3), Vec3Rounded::new(4, 5, 6)];
    assert_eq!(calculate_face_normal(&points), Vec3Rounded::new(0, 0, 1));
}

#[test]
fn test_face_eq_reflexive_and_symmetric() {
    let part = unit_cube();
    for f in &part.faces {
        assert!(f.face_eq(f));
    }
    for i in 0..part.faces.len() {
        for j in 0..part.faces.len() {
            let fw = part.faces[i].face_eq(&part.faces[j]);
            let bw = part.faces[j].face_eq(&part.faces[i]);
            assert_eq!(fw, bw);
            assert_eq!(fw, i == j);
        }
    }
}

#[test]
fn test_extrude_single_face_counts() {
    let mut part = unit_cube();
    // select the top face (vertices 2, 3, 7, 6)
    handle_face_selection(&mut part, 4, false, EditorMode::SelectFace);
    assert_eq!(part.selected_faces.len(), 1);
    let r = extrude_faces(&mut part, Vec3Rounded::new(0, GRID_SCALE, 0));
    assert!(r.is_ok());
    assert_eq!(part.vertices.len(), 12);
    assert_eq!(part.edges.len(), 20);
    assert_eq!(part.faces.len(), 11);
    // the cap keeps the winding and the inherited normal
    let original_top = &part.faces[4];
    let cap = &part.faces[6];
    assert_eq!(cap.normal, original_top.normal);
    for i in 0..4 {
        let c = original_top.vertices[i].coordinates;
        assert_eq!(cap.vertices[i].coordinates, Vec3Rounded::new(c.x, c.y + GRID_SCALE, c.z));
    }
}

#[test]
fn test_extrude_two_adjacent_faces_dedup() {
    let mut part = unit_cube();
    // front face (0,1,2,3) and right face (1,2,6,5) share the edge (1,2)
    handle_face_selection(&mut part, 0, false, EditorMode::SelectFace);
    handle_face_selection(&mut part, 2, true, EditorMode::SelectFace);
    assert_eq!(part.selected_faces.len(), 2);
    let r = extrude_faces(&mut part, Vec3Rounded::new(0, 0, -GRID_SCALE));
    assert!(r.is_ok());
    // the two translated vertices of the shared edge are deduplicated
    // within the call: 4 + 2 new vertices; edges and faces are per face
    assert_eq!(part.vertices.len(), 8 + 6);
    assert_eq!(part.edges.len(), 12 + 16);
    assert_eq!(part.faces.len(), 6 + 10);
}

#[test]
fn test_extrude_empty_selection_reports() {
    let mut part = unit_cube();
    let r = extrude_faces(&mut part, Vec3Rounded::new(0, GRID_SCALE, 0));
    assert_eq!(r, Err(EditorError::NoFacesSelected));
    assert_eq!(part.vertices.len(), 8);
    assert_eq!(part.edges.len(), 12);
    assert_eq!(part.faces.len(), 6);
}

#[test]
fn test_extrude_out_of_range_reports() {
    let mut part = unit_cube();
    handle_face_selection(&mut part, 4, false, EditorMode::SelectFace);
    let r = extrude_faces(&mut part, Vec3Rounded::new(0, 2 * COORD_LIMIT, 0));
    assert_eq!(r, Err(EditorError::CoordinateOutOfRange));
    // the part is untouched
    assert_eq!(part.vertices.len(), 8);
    assert_eq!(part.edges.len(), 12);
    assert_eq!(part.faces.len(), 6);
    assert_eq!(part.selected_faces.len(), 1);
}

#[test]
fn test_selection_toggle() {
    let mut part = unit_cube();
    // single-select face 0
    handle_face_selection(&mut part, 0, false, EditorMode::SelectFace);
    assert_eq!(part.selected_faces.len(), 1);
    assert!(part.selected_faces[0].face_eq(&part.faces[0]));
    // multi-select face 1: both selected, in order
    handle_face_selection(&mut part, 1, true, EditorMode::SelectFace);
    assert_eq!(part.selected_faces.len(), 2);
    assert!(part.selected_faces[0].face_eq(&part.faces[0]));
    assert!(part.selected_faces[1].face_eq(&part.faces[1]));
    // multi-select face 0 again: toggled off, face 1 stays
    handle_face_selection(&mut part, 0, true, EditorMode::SelectFace);
    assert_eq!(part.selected_faces.len(), 1);
    assert!(part.selected_faces[0].face_eq(&part.faces[1]));
}

#[test]
fn test_selection_ignored_outside_face_mode() {
    let mut part = unit_cube();
    handle_face_selection(&mut part, 0, false, EditorMode::RotatePart);
    assert_eq!(part.selected_faces.len(), 0);
    handle_face_selection(&mut part, 0, false, EditorMode::SelectEdge);
    assert_eq!(part.selected_faces.len(), 0);
}

#[test]
fn test_single_select_replaces() {
    let mut part = unit_cube();
    handle_face_selection(&mut part, 0, false, EditorMode::SelectFace);
    handle_face_selection(&mut part, 3, false, EditorMode::SelectFace);
    assert_eq!(part.selected_faces.len(), 1);
    assert!(part.selected_faces[0].face_eq(&part.faces[3]));
}

#[test]
fn test_vertex_accessors() {
    let v = Vertex::new(1, 2, 3);
    assert_eq!(v.get_coordinates(), Vec3Rounded::new(1, 2, 3));
    let w = Vertex::point_to_vertex(Vec3Rounded::new(4, 5, 6));
    assert_eq!(w.coordinates, Vec3Rounded::new(4, 5, 6));
    let vs = Vertex::points_to_vertices(&vec![
        Vec3Rounded::new(1, 0, 0),
        Vec3Rounded::new(0, 1, 0),
    ]);
    assert_eq!(vs.len(), 2);
    assert_eq!(vs[0].coordinates, Vec3Rounded::new(1, 0, 0));
    assert_eq!(vs[1].coordinates, Vec3Rounded::new(0, 1, 0));
}

#[test]
fn test_edge_accessors() {
    let a = Vertex::new(0, 0, 0);
    let b = Vertex::new(1, 0, 0);
    let e = Edge::new(a, b);
    assert_eq!(e.start, a);
    assert_eq!(e.end, b);
    let e2 = Edge::with_points(vec![Vec3Rounded::new(0, 0, 0), Vec3Rounded::new(1, 0, 0)]);
    assert_eq!(e2.start, a);
    assert_eq!(e2.end, b);
    let e3 = Edge::with_vertices(vec![a, b]);
    assert_eq!(e3.start, a);
    assert_eq!(e3.end, b);
    let vs = e.get_vertices();
    assert_eq!(vs.len(), 2);
    assert_eq!(vs[0], a);
    assert_eq!(vs[1], b);
}

#[test]
fn test_face_copy_and_get_vertices() {
    let part = unit_cube();
    let f = &part.faces[0];
    let c = f.copy();
    assert_eq!(c.vertices, f.vertices);
    assert_eq!(c.edges.len(), f.edges.len());
    assert_eq!(c.normal, f.normal);
    assert!(c.face_eq(f));
    assert_eq!(f.get_vertices(), f.vertices);
}

#[test]
fn test_part_constructors() {
    let p = Part::new();
    assert_eq!(p.vertices.len(), 0);
    assert_eq!(p.edges.len(), 0);
    assert_eq!(p.faces.len(), 0);
    let q = Part::with_points(CubePoints::get_points());
    assert_eq!(q.vertices.len(), 8);
    assert_eq!(q.edges.len(), 0);
    assert_eq!(q.faces.len(), 0);
}

#[test]
fn test_create_edges_from_vertices() {
    let vs = Vertex::points_to_vertices(&CubePoints::get_points());
    let es = create_edges_from_vertices(&vs);
    assert_eq!(es.len(), 12);
    assert_eq!(es[0].start, vs[0]);
    assert_eq!(es[11].end, vs[7]);
}

#[test]
fn test_dedup_points_keeps_first_occurrences() {
    let a = Vec3Rounded::new(0, 0, 0);
    let b = Vec3Rounded::new(1, 0, 0);
    let c = Vec3Rounded::new(0, 1, 0);
    let points = vec![a, b, a, c, b, a];
    let unique = dedup_points(&points);
    assert_eq!(unique, vec![a, b, c]);
}

#[test]
fn test_face_mesh_data_quad_split() {
    let part = unit_cube();
    let (positions, indices, normal) = face_mesh_data(&part.faces[0]);
    assert_eq!(positions.len(), 4);
    for i in 0..4 {
        assert_eq!(positions[i], part.faces[0].vertices[i].coordinates);
    }
    assert_eq!(indices, vec![0, 1, 2, 2, 3, 0]);
    assert_eq!(normal, part.faces[0].normal);
}

#[test]
fn test_face_eq_within_tolerance() {
    // two cubes offset by less than the tolerance (squared distance
    // 25 < 100): their faces compare equal
    let part_a = unit_cube();
    let mut shifted = CubePoints::get_points();
    for p in &mut shifted {
        *p = Vec3Rounded::new(p.x + 3, p.y + 4, p.z);
    }
    let part_b = build_part(&shifted);
    assert!(part_a.faces[0].face_eq(&part_b.faces[0]));
    assert!(part_b.faces[0].face_eq(&part_a.faces[0]));
}

#[test]
fn test_face_eq_outside_tolerance() {
    // an offset of exactly the tolerance (squared distance 100) is no
    // longer "the same vertex", so the faces differ
    let part_a = unit_cube();
    let mut shifted = CubePoints::get_points();
    for p in &mut shifted {
        *p = Vec3Rounded::new(p.x + 6, p.y + 8, p.z);
    }
    let part_b = build_part(&shifted);
    assert!(!part_a.faces[0].face_eq(&part_b.faces[0]));
    assert!(!part_b.faces[0].face_eq(&part_a.faces[0]));
}

#[test]
fn test_extrude_never_dedups_against_originals() {
    // extruding the front face by one unit in +Z puts every new vertex
    // exactly on a back corner; deduplication is per call only, so the
    // coincident vertices are appended anyway
    let mut part = unit_cube();
    handle_face_selection(&mut part, 0, false, EditorMode::SelectFace);
    let r = extrude_faces(&mut part, Vec3Rounded::new(0, 0, GRID_SCALE));
    assert!(r.is_ok());
    assert_eq!(part.vertices.len(), 12);
    assert_eq!(part.vertices[8].coordinates, part.vertices[4].coordinates);
}

#[test]
fn test_extrude_dedups_within_tolerance() {
    // a cube three grid steps wide: every translated cap vertex falls
    // within the same-vertex tolerance of the first one (squared
    // distance at most 18 < 100), so the call appends just one new
    // vertex; the cap face itself still carries its four corners
    let s = 3;
    let points = vec![
        Vec3Rounded::new(0, 0, 0),
        Vec3Rounded::new(s, 0, 0),
        Vec3Rounded::new(s, s, 0),
        Vec3Rounded::new(0, s, 0),
        Vec3Rounded::new(0, 0, s),
        Vec3Rounded::new(s, 0, s),
        Vec3Rounded::new(s, s, s),
        Vec3Rounded::new(0, s, s),
    ];
    let mut part = build_part(&points);
    handle_face_selection(&mut part, 0, false, EditorMode::SelectFace);
    let r = extrude_faces(&mut part, Vec3Rounded::new(0, GRID_SCALE, 0));
    assert!(r.is_ok());
    assert_eq!(part.vertices.len(), 8 + 1);
    assert_eq!(part.vertices[8].coordinates, Vec3Rounded::new(0, GRID_SCALE, 0));
    assert_eq!(part.edges.len(), 12 + 8);
    assert_eq!(part.faces.len(), 6 + 5);
    assert_eq!(part.faces[6].vertices.len(), 4);
}
