use orbital_movement_gdextension::{corridor_triangle_indices, spherical_polyline_samples};

#[test]
fn open_corridor_of_two_rows() {
    // Two rows of three vertices (two cross subdivisions).
    let indices = corridor_triangle_indices(2, 2, false);
    assert_eq!(indices, vec![0, 3, 1, 1, 3, 4, 1, 4, 2, 2, 4, 5]);
}

#[test]
fn closed_corridor_wraps_to_first_row() {
    let indices = corridor_triangle_indices(2, 1, true);
    assert_eq!(indices, vec![0, 2, 1, 1, 2, 3, 2, 0, 3, 3, 0, 1]);
}

#[test]
fn corridor_needs_two_rows() {
    assert!(corridor_triangle_indices(0, 4, false).is_empty());
    assert!(corridor_triangle_indices(1, 4, true).is_empty());
    assert!(corridor_triangle_indices(5, 0, true).is_empty());
}

#[test]
fn corridor_indices_are_whole_triangles_on_existing_vertices() {
    for (rows, cross, closed) in [(3, 4, false), (3, 4, true), (7, 1, true), (10, 48, false)] {
        let indices = corridor_triangle_indices(rows, cross, closed);
        let segments = if closed { rows } else { rows - 1 };
        assert_eq!(indices.len(), 6 * segments * cross);
        assert_eq!(indices.len() % 3, 0);
        let vertex_count = (rows * (cross + 1)) as u32;
        assert!(indices.iter().all(|&i| i < vertex_count));
    }
}

#[test]
fn open_polyline_skips_repeated_segment_starts() {
    let samples = spherical_polyline_samples(&vec![3, 2], false);
    assert_eq!(samples, vec![(0, 0), (0, 1), (0, 2), (1, 1)]);
}

#[test]
fn closed_polyline_keeps_every_segment_start() {
    let samples = spherical_polyline_samples(&vec![2, 2, 1], true);
    assert_eq!(samples, vec![(0, 0), (0, 1), (1, 0), (1, 1), (2, 0)]);
}

#[test]
fn polyline_sample_count_grows_with_subdivisions() {
    let short = spherical_polyline_samples(&vec![4], false);
    let far = spherical_polyline_samples(&vec![48], false);
    assert_eq!(short.len(), 4);
    assert_eq!(far.len(), 48);
    assert!(spherical_polyline_samples(&vec![], true).is_empty());
    assert_eq!(spherical_polyline_samples(&vec![4, 0, 1], false), vec![(0, 0), (0, 1), (0, 2), (0, 3)]);
}
