use brep_editor::vec3_rounded::{Vec3Rounded, GRID_SCALE, COORD_LIMIT};
use brep_editor::components::{EditorError, ExtrusionParams};
use brep_editor::primitives::CubePoints;
use brep_editor::selection::EditorMode;
use brep_editor::highlight::{ColorState, color_for};
use brep_editor::editor::{EditorState, translate_points, extrusion_vector};

#[test]
fn test_editor_mode_default() {
    assert_eq!(EditorMode::default(), EditorMode::SelectFace);
}

#[test]
fn test_color_for_precedence() {
    assert_eq!(color_for(true, true), ColorState::Selected);
    assert_eq!(color_for(true, false), ColorState::Selected);
    assert_eq!(color_for(false, true), ColorState::Hovered);
    assert_eq!(color_for(false, false), ColorState::NoChange);
}

#[test]
fn test_create_solid_and_counts() {
    let mut state = EditorState::new();
    assert_eq!(state.part_count(), 0);
    assert_eq!(state.mode(), EditorMode::SelectFace);
    assert_eq!(state.create_solid(&CubePoints::get_points()), Ok(()));
    assert_eq!(state.part_count(), 1);
    assert_eq!(state.counts(0), Some((8, 12, 6)));
    assert_eq!(state.counts(1), None);
}

#[test]
fn test_create_solid_rejects_wrong_count() {
    let mut state = EditorState::new();
    let too_few = vec![Vec3Rounded::new(0, 0, 0); 7];
    assert_eq!(state.create_solid(&too_few), Err(EditorError::InvalidPointCount));
    assert_eq!(state.part_count(), 0);
}

#[test]
fn test_create_solid_rejects_out_of_range() {
    let mut state = EditorState::new();
    let mut points = CubePoints::get_points();
    points[3] = Vec3Rounded::new(COORD_LIMIT + 1, 0, 0);
    assert_eq!(state.create_solid(&points), Err(EditorError::CoordinateOutOfRange));
    assert_eq!(state.part_count(), 0);
}

#[test]
fn test_mode_switch_clears_all_selections() {
    let mut state = EditorState::new();
    state.create_solid(&CubePoints::get_points()).unwrap();
    let offset = Vec3Rounded::new(3 * GRID_SCALE, 0, 0);
    let moved = translate_points(&CubePoints::get_points(), offset).unwrap();
    state.create_solid(&moved).unwrap();
    state.select_face(0, 0, false).unwrap();
    state.select_face(1, 2, false).unwrap();
    assert_eq!(state.selected_face_count(0), Some(1));
    assert_eq!(state.selected_face_count(1), Some(1));
    state.set_editor_mode(EditorMode::SelectEdge);
    assert_eq!(state.mode(), EditorMode::SelectEdge);
    // both parts lose every selection, simultaneously
    assert_eq!(state.selected_face_count(0), Some(0));
    assert_eq!(state.selected_face_count(1), Some(0));
    // geometry is untouched
    assert_eq!(state.counts(0), Some((8, 12, 6)));
    assert_eq!(state.counts(1), Some((8, 12, 6)));
}

#[test]
fn test_select_face_bad_indices() {
    let mut state = EditorState::new();
    assert_eq!(state.select_face(0, 0, false), Err(EditorError::NoSuchElement));
    state.create_solid(&CubePoints::get_points()).unwrap();
    assert_eq!(state.select_face(0, 6, false), Err(EditorError::NoSuchElement));
    assert_eq!(state.select_face(1, 0, false), Err(EditorError::NoSuchElement));
}

#[test]
fn test_scenario_build_select_extrude() {
    // build a unit cube, select its top face, extrude by (0,1,0) x 1:
    // 12 vertices in all (8 + 4, none deduplicated against originals)
    // and 11 faces (6 original + cap + 4 sides); the original top face
    // stays in place.
    let mut state = EditorState::new();
    state.create_solid(&CubePoints::get_points()).unwrap();
    state.select_face(0, 4, false).unwrap();
    assert_eq!(state.selected_face_count(0), Some(1));
    let results = state.extrude_selected(Vec3Rounded::new(0, GRID_SCALE, 0));
    assert_eq!(results, vec![Ok(())]);
    assert_eq!(state.counts(0), Some((12, 20, 11)));
    // a successful extrusion clears the selection
    assert_eq!(state.selected_face_count(0), Some(0));
}

#[test]
fn test_extrude_selected_reports_per_part() {
    let mut state = EditorState::new();
    state.create_solid(&CubePoints::get_points()).unwrap();
    let offset = Vec3Rounded::new(3 * GRID_SCALE, 0, 0);
    let moved = translate_points(&CubePoints::get_points(), offset).unwrap();
    state.create_solid(&moved).unwrap();
    // only the second part has a selection
    state.select_face(1, 0, false).unwrap();
    let results = state.extrude_selected(Vec3Rounded::new(0, GRID_SCALE, 0));
    assert_eq!(results, vec![Err(EditorError::NoFacesSelected), Ok(())]);
    assert_eq!(state.counts(0), Some((8, 12, 6)));
    assert_eq!(state.counts(1), Some((12, 20, 11)));
}

#[test]
fn test_face_display_states() {
    let mut state = EditorState::new();
    state.create_solid(&CubePoints::get_points()).unwrap();
    state.select_face(0, 0, false).unwrap();
    assert_eq!(state.face_display(0, 0, false), Some(ColorState::Selected));
    assert_eq!(state.face_display(0, 0, true), Some(ColorState::Selected));
    assert_eq!(state.face_display(0, 1, true), Some(ColorState::Hovered));
    assert_eq!(state.face_display(0, 1, false), Some(ColorState::NoChange));
    assert_eq!(state.face_display(0, 6, false), None);
    state.set_editor_mode(EditorMode::MoveFace);
    assert_eq!(state.face_display(0, 0, true), Some(ColorState::NoChange));
}

#[test]
fn test_face_mesh_through_state() {
    let mut state = EditorState::new();
    state.create_solid(&CubePoints::get_points()).unwrap();
    let (positions, indices, normal) = state.face_mesh(0, 0).unwrap();
    assert_eq!(positions.len(), 4);
    assert_eq!(positions[0], Vec3Rounded::new(0, 0, 0));
    assert_eq!(indices, vec![0, 1, 2, 2, 3, 0]);
    assert_eq!(normal, Vec3Rounded::new(0, 0, GRID_SCALE * GRID_SCALE));
    assert_eq!(state.face_mesh(0, 6), None);
}

#[test]
fn test_translate_points_exact_and_rejected() {
    let points = vec![Vec3Rounded::new(1, 2, 3)];
    let moved = translate_points(&points, Vec3Rounded::new(10, 20, 30)).unwrap();
    assert_eq!(moved, vec![Vec3Rounded::new(11, 22, 33)]);
    let r = translate_points(&points, Vec3Rounded::new(COORD_LIMIT, 0, 0));
    assert_eq!(r, Err(EditorError::CoordinateOutOfRange));
}

#[test]
fn test_extrusion_vector_scaling() {
    let params = ExtrusionParams { direction: Vec3Rounded::new(0, 1, 0), distance: GRID_SCALE };
    assert_eq!(extrusion_vector(&params), Ok(Vec3Rounded::new(0, GRID_SCALE, 0)));
    let too_long = ExtrusionParams {
        direction: Vec3Rounded::new(0, COORD_LIMIT, 0),
        distance: COORD_LIMIT,
    };
    assert_eq!(extrusion_vector(&too_long), Err(EditorError::CoordinateOutOfRange));
}
