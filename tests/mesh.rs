use solar_system::mesh::{generate_ring_indices, generate_sphere_indices};

#[test]
fn sphere_indices_of_a_small_grid() {
    let indices = generate_sphere_indices(2, 1);
    assert_eq!(indices, vec![0, 1, 3, 1, 4, 3, 1, 2, 4, 2, 5, 4]);
}

#[test]
fn sphere_indices_of_the_scene_mesh_stay_in_range() {
    let indices = generate_sphere_indices(128, 128);
    assert_eq!(indices.len(), 6 * 128 * 128);
    let vertices = 129 * 129;
    assert!(indices.iter().all(|&i| (i as usize) < vertices));
    assert_eq!(*indices.iter().max().unwrap() as usize, vertices - 1);
}

#[test]
fn sphere_with_no_segments_has_no_triangles() {
    assert!(generate_sphere_indices(0, 5).is_empty());
    assert!(generate_sphere_indices(5, 0).is_empty());
}

#[test]
fn sphere_indices_at_the_u16_limit() {
    // 256 x 256 grid points is the largest square grid a u16 index can address.
    let indices = generate_sphere_indices(255, 255);
    assert_eq!(*indices.iter().max().unwrap(), u16::MAX);
}

#[test]
fn ring_indices_of_two_segments() {
    let indices = generate_ring_indices(2);
    assert_eq!(indices, vec![0, 2, 1, 1, 2, 3, 2, 4, 3, 3, 4, 5]);
}

#[test]
fn ring_indices_of_the_scene_mesh() {
    let indices = generate_ring_indices(128);
    assert_eq!(indices.len(), 128 * 6);
    assert_eq!(*indices.iter().max().unwrap(), 2 * 128 + 1);
    assert!(generate_ring_indices(0).is_empty());
}
