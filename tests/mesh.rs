use gl_sandbox::mesh::{byte_size, check_mesh, first_index_out_of_range, MeshError, MeshLayout};

#[test]
fn quad_mesh_is_accepted() {
    let vertices: [f32; 12] = [
        0.5, 0.5, 0.0, 0.5, -0.5, 0.0, -0.5, -0.5, 0.0, -0.5, 0.5, 0.0,
    ];
    let indices: Vec<u32> = vec![0, 1, 3, 1, 2, 3];
    let layout = check_mesh(vertices.len(), &indices).unwrap();
    assert_eq!(
        layout,
        MeshLayout { vertex_count: 4, index_count: 6, vertex_bytes: 48, index_bytes: 24 }
    );
}

#[test]
fn empty_mesh_is_accepted() {
    let layout = check_mesh(0, &Vec::new()).unwrap();
    assert_eq!(
        layout,
        MeshLayout { vertex_count: 0, index_count: 0, vertex_bytes: 0, index_bytes: 0 }
    );
}

#[test]
fn ragged_vertex_data_is_refused() {
    assert_eq!(check_mesh(11, &vec![0, 1, 2]), Err(MeshError::RaggedVertexData));
}

#[test]
fn index_naming_missing_vertex_is_refused() {
    assert_eq!(check_mesh(12, &vec![0, 1, 4]), Err(MeshError::IndexOutOfRange));
    assert_eq!(check_mesh(0, &vec![0]), Err(MeshError::IndexOutOfRange));
}

#[test]
fn ragged_data_is_reported_before_bad_indices() {
    assert_eq!(check_mesh(10, &vec![9]), Err(MeshError::RaggedVertexData));
}

#[test]
fn first_bad_index_position() {
    assert_eq!(first_index_out_of_range(&vec![0, 3, 1, 7], 3), Some(1));
    assert_eq!(first_index_out_of_range(&vec![0, 2, 1], 3), None);
    assert_eq!(first_index_out_of_range(&Vec::new(), 0), None);
}

#[test]
fn byte_sizes() {
    assert_eq!(byte_size(0), Some(0));
    assert_eq!(byte_size(6), Some(24));
    assert_eq!(byte_size(0x1fff_ffff_ffff_ffff), Some(0x7fff_ffff_ffff_fffc));
    assert_eq!(byte_size(0x2000_0000_0000_0000), None);
    assert_eq!(byte_size(usize::MAX), None);
}

#[test]
fn oversized_vertex_data_is_refused() {
    assert_eq!(check_mesh(0x2000_0000_0000_0001, &Vec::new()), Err(MeshError::TooLarge));
}
