use voxgen::chunk::ChunkPos;
use voxgen::chunk::compute_1d;
use voxgen::vec3::Vec3i;

#[test]
fn chunk_pos_round_trip_inside_footprint() {
    // Every world position strictly inside a chunk's 16 x 16 footprint maps
    // back to the same chunk: the four corners and the center.
    let offsets = [(0, 0), (15, 0), (0, 15), (15, 15), (8, 8)];
    for &(px, pz) in &[(0, 0), (2, -8), (-1, -1), (5, 3), (-7, 11)] {
        let p = ChunkPos::new(px, pz);
        let w = p.to_world();
        for &(ox, oz) in &offsets {
            let sample = Vec3i::new(w.x + ox, 0, w.z + oz);
            assert_eq!(ChunkPos::from_world(sample), p);
        }
    }
}

#[test]
fn from_world_floors_negative_coordinates() {
    assert_eq!(ChunkPos::from_world(Vec3i::new(-1, 0, -1)), ChunkPos::new(-1, -1));
    assert_eq!(ChunkPos::from_world(Vec3i::new(-16, 0, -16)), ChunkPos::new(-1, -1));
    assert_eq!(ChunkPos::from_world(Vec3i::new(-17, 0, -17)), ChunkPos::new(-2, -2));
    assert_eq!(ChunkPos::from_world(Vec3i::new(32, 0, -128)), ChunkPos::new(2, -8));
    assert_eq!(ChunkPos::from_world(Vec3i::new(0, 0, 0)), ChunkPos::new(0, 0));
    assert_eq!(ChunkPos::from_world(Vec3i::new(15, 0, 15)), ChunkPos::new(0, 0));
    assert_eq!(ChunkPos::from_world(Vec3i::new(16, 0, 16)), ChunkPos::new(1, 1));
}

#[test]
fn to_world_scales_by_chunk_footprint() {
    assert_eq!(ChunkPos::new(2, -8).to_world(), Vec3i::new(32, 0, -128));
    assert_eq!(ChunkPos::new(0, 0).to_world(), Vec3i::new(0, 0, 0));
    let w = ChunkPos::new(-3, 5).to_world();
    assert_eq!((w.x, w.y, w.z), (-48, 0, 80));
}

#[test]
fn chunk_pos_add_sub_componentwise() {
    let a = ChunkPos::new(3, -4);
    let b = ChunkPos::new(-1, 10);
    assert_eq!(a.add(b), ChunkPos::new(2, 6));
    assert_eq!(a.sub(b), ChunkPos::new(4, -14));
    assert_eq!(a.sub(a), ChunkPos::new(0, 0));
}

#[test]
fn chunk_pos_equality_is_componentwise() {
    assert_eq!(ChunkPos::new(1, 2), ChunkPos::new(1, 2));
    assert_ne!(ChunkPos::new(1, 2), ChunkPos::new(2, 1));
}

#[test]
fn compute_1d_flattens_in_x_y_z_order() {
    assert_eq!(compute_1d(0, 0, 0), 0);
    assert_eq!(compute_1d(1, 0, 0), 1);
    assert_eq!(compute_1d(0, 1, 0), 16);
    assert_eq!(compute_1d(0, 0, 1), 16 * 256);
    assert_eq!(compute_1d(1, 2, 3), 1 + 2 * 16 + 3 * 16 * 256);
    assert_eq!(compute_1d(15, 255, 15), 16 * 256 * 16 - 1);
}

#[test]
fn vec3i_add_sub_componentwise() {
    let a = Vec3i::new(1, -2, 3);
    let b = Vec3i::new(10, 20, -30);
    assert_eq!(a.add(b), Vec3i::new(11, 18, -27));
    assert_eq!(a.sub(b), Vec3i::new(-9, -22, 33));
}

#[test]
fn chunk_pos_round_trip_through_floats() {
    // the original camera hands float world positions in; flooring them to
    // the integer grid first gives the same chunk for every point strictly
    // inside the footprint
    for &(px, pz) in &[(0, 0), (2, -8), (-1, -1), (5, 3)] {
        let p = ChunkPos::new(px, pz);
        let w = p.to_world();
        for &(ox, oz) in &[(0.0_f32, 0.0_f32), (15.9, 0.0), (0.0, 15.9), (15.9, 15.9), (8.0, 8.0)] {
            let fx = w.x as f32 + ox;
            let fz = w.z as f32 + oz;
            let sample = Vec3i::new(fx.floor() as i32, 0, fz.floor() as i32);
            assert_eq!(ChunkPos::from_world(sample), p);
        }
    }
}
