use planar_video::geometry::{pentagon_model, quad_model, GeometryError, GeometryModel};

#[test]
fn pentagon_model_is_valid() {
    let m = pentagon_model();
    assert_eq!(m.num_vertices, 5);
    assert_eq!(m.indices, vec![0u16, 1, 4, 1, 2, 4, 2, 3, 4]);
    assert_eq!(m.num_indices(), 9);
}

#[test]
fn quad_model_is_valid() {
    let m = quad_model();
    assert_eq!(m.num_vertices, 4);
    assert_eq!(m.indices, vec![0u16, 2, 1, 0, 3, 2]);
    assert_eq!(m.num_indices(), 6);
}

#[test]
fn new_accepts_whole_triangles_in_range() {
    let m = GeometryModel::new(3, vec![0u16, 1, 2]).unwrap();
    assert_eq!(m.num_vertices, 3);
    assert_eq!(m.num_indices(), 3);
}

#[test]
fn new_accepts_empty_index_list() {
    let m = GeometryModel::new(0, Vec::new()).unwrap();
    assert_eq!(m.num_indices(), 0);
}

#[test]
fn new_rejects_partial_triangle() {
    assert_eq!(
        GeometryModel::new(4, vec![0u16, 1]).unwrap_err(),
        GeometryError::PartialTriangle,
    );
}

#[test]
fn new_rejects_index_out_of_range() {
    assert_eq!(
        GeometryModel::new(3, vec![0u16, 1, 3]).unwrap_err(),
        GeometryError::IndexOutOfRange,
    );
}

#[test]
fn partial_triangle_reported_before_range() {
    // Both faults at once: the truncated-triangle fault is the one named.
    assert_eq!(
        GeometryModel::new(1, vec![0u16, 9]).unwrap_err(),
        GeometryError::PartialTriangle,
    );
}
