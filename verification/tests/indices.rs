use voxgen::buffer::compute_cube_indices;

#[test]
fn one_quad_pattern() {
    assert_eq!(compute_cube_indices(4), vec![0, 1, 2, 2, 1, 3]);
}

#[test]
fn two_quad_pattern() {
    assert_eq!(compute_cube_indices(8), vec![0, 1, 2, 2, 1, 3, 4, 5, 6, 6, 5, 7]);
}

#[test]
fn zero_vertices_give_no_indices() {
    assert_eq!(compute_cube_indices(0), Vec::<u32>::new());
}

#[test]
fn six_indices_per_four_vertices() {
    let indices = compute_cube_indices(24);
    assert_eq!(indices.len(), 24 / 4 * 6);
    for (i, &v) in indices.iter().enumerate() {
        let pattern = [0, 1, 2, 2, 1, 3];
        assert_eq!(v as usize, i / 6 * 4 + pattern[i % 6]);
    }
}
