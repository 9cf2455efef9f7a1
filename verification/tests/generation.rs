use voxgen::block::BlockId;
use voxgen::chunk::CHUNK_DEPTH;
use voxgen::chunk::CHUNK_HEIGHT;
use voxgen::chunk::CHUNK_WIDTH;
use voxgen::chunk::Chunk;
use voxgen::chunk::ChunkPos;
use voxgen::chunk::TOTAL_CHUNK_SIZE;
use voxgen::chunk::compute_1d;
use voxgen::vec3::Vec3i;

#[test]
fn generate_is_deterministic() {
    let pos = ChunkPos::new(3, -2);
    let (blocks_a, mesh_a) = Chunk::generate(pos);
    let (blocks_b, mesh_b) = Chunk::generate(pos);
    assert_eq!(blocks_a, blocks_b);
    assert_eq!(mesh_a.vertices, mesh_b.vertices);
    assert_eq!(mesh_a.indices, mesh_b.indices);
    assert_eq!(mesh_a.num_elements, mesh_b.num_elements);
}

#[test]
fn generate_block_array_follows_terrain_rule() {
    let (blocks, _) = Chunk::generate(ChunkPos::new(0, 0));
    assert_eq!(blocks.len(), TOTAL_CHUNK_SIZE);
    for x in 0..CHUNK_WIDTH {
        for z in 0..CHUNK_DEPTH {
            assert_eq!(blocks[compute_1d(x, CHUNK_HEIGHT - 1, z)], BlockId::GRASS);
            assert_eq!(blocks[compute_1d(x, 0, z)], BlockId::DIRT);
            assert_eq!(blocks[compute_1d(x, CHUNK_HEIGHT / 2, z)], BlockId::DIRT);
        }
    }
}

#[test]
fn generate_full_chunk_counts() {
    // One quad per out-of-bounds neighbor check: the four side walls have
    // 256 * 16 cells each, floor and ceiling 16 * 16 each.
    let expected_quads = 4 * (CHUNK_HEIGHT * CHUNK_WIDTH) + 2 * (CHUNK_WIDTH * CHUNK_DEPTH);
    let (_, mesh) = Chunk::generate(ChunkPos::new(-4, 7));
    assert_eq!(mesh.vertices.len(), 4 * expected_quads);
    assert_eq!(mesh.indices.len(), 6 * expected_quads);
    assert_eq!(mesh.num_elements as usize, mesh.indices.len());
    assert_eq!(mesh.vertices.len() % 4, 0);
}

#[test]
fn toy_chunk_face_count() {
    // In a 2x2x2 grid every cell sits in a corner: exactly three of its six
    // neighbor checks leave the grid, so each of the eight cells emits three
    // quads. Chunk boundaries always emit geometry; no cross-chunk culling.
    let (blocks, mesh) = Chunk::generate_sized(ChunkPos::new(0, 0), 2, 2, 2);
    assert_eq!(blocks.len(), 8);
    assert_eq!(mesh.vertices.len(), 8 * 3 * 4);
    assert_eq!(mesh.vertices.len() % 4, 0);
    assert_eq!(mesh.indices.len(), 8 * 3 * 6);
    assert_eq!(mesh.num_elements, 8 * 3 * 6);
}

#[test]
fn single_cell_chunk_emits_all_six_faces() {
    // In a 1x1x1 grid the lone cell fails all six neighbor checks, so it
    // emits exactly six quads: 24 vertices, 36 indices.
    let (blocks, mesh) = Chunk::generate_sized(ChunkPos::new(0, 0), 1, 1, 1);
    assert_eq!(blocks.len(), 1);
    // a single layer is the topmost layer
    assert_eq!(blocks[0], BlockId::GRASS);
    assert_eq!(mesh.vertices.len(), 6 * 4);
    assert_eq!(mesh.indices.len(), 6 * 6);
}

#[test]
fn toy_chunk_terrain_rule() {
    // Linear index x + y * 2 + z * 4 over a 2x2x2 grid: cells with y == 1
    // form the top layer.
    let (blocks, _) = Chunk::generate_sized(ChunkPos::new(5, 5), 2, 2, 2);
    for (i, b) in blocks.iter().enumerate() {
        let y = (i / 2) % 2;
        if y == 1 {
            assert_eq!(*b, BlockId::GRASS);
        } else {
            assert_eq!(*b, BlockId::DIRT);
        }
    }
}

#[test]
fn toy_chunk_first_cell_quads() {
    // The first cell of a 2x2x2 grid at the origin chunk is dirt at local
    // (0, 0, 0); its out-of-bounds directions are Left, Bottom and Back, in
    // that order. Its first emitted vertex is the Left face's first corner.
    let (_, mesh) = Chunk::generate_sized(ChunkPos::new(0, 0), 2, 2, 2);
    let v = &mesh.vertices[0];
    assert_eq!(v.pos, Vec3i::new(-1, 1, -1));
    assert_eq!((v.u, v.v), (0, 0));
    assert_eq!(v.tile, 0);
    // Vertices 4..8 belong to the Bottom face; its first corner offset is
    // (-1, -1, -1).
    assert_eq!(mesh.vertices[4].pos, Vec3i::new(-1, -1, -1));
    // Vertices 8..12 belong to the Back face; its first corner offset is
    // (1, -1, -1).
    assert_eq!(mesh.vertices[8].pos, Vec3i::new(1, -1, -1));
}

#[test]
fn generate_translates_by_chunk_origin() {
    // The chunk at (1, -1) spans world X in [16, 32) and Z in [-16, 0); its
    // first cell is at world (16, 0, -16), so the first vertex (Left face,
    // corner (-1, 1, -1)) lands at (15, 1, -17).
    let (_, mesh) = Chunk::generate_sized(ChunkPos::new(1, -1), 2, 2, 2);
    assert_eq!(mesh.vertices[0].pos, Vec3i::new(15, 1, -17));
}

#[test]
fn chunk_new_is_loaded_generated_chunk() {
    let pos = ChunkPos::new(2, 2);
    let chunk = Chunk::new(pos);
    assert!(chunk.loaded);
    assert_eq!(chunk.pos, pos);
    assert_eq!(chunk.blocks.len(), TOTAL_CHUNK_SIZE);
    let (blocks, mesh) = Chunk::generate(pos);
    assert_eq!(chunk.blocks, blocks);
    assert_eq!(chunk.mesh.vertices, mesh.vertices);
    assert_eq!(chunk.mesh.indices, mesh.indices);
}

#[test]
fn is_pos_in_bounds_checks_all_axes() {
    assert!(Chunk::is_pos_in_bounds(Vec3i::new(0, 0, 0)));
    assert!(Chunk::is_pos_in_bounds(Vec3i::new(15, 255, 15)));
    assert!(!Chunk::is_pos_in_bounds(Vec3i::new(-1, 0, 0)));
    assert!(!Chunk::is_pos_in_bounds(Vec3i::new(0, -1, 0)));
    assert!(!Chunk::is_pos_in_bounds(Vec3i::new(0, 0, -1)));
    assert!(!Chunk::is_pos_in_bounds(Vec3i::new(16, 0, 0)));
    assert!(!Chunk::is_pos_in_bounds(Vec3i::new(0, 256, 0)));
    assert!(!Chunk::is_pos_in_bounds(Vec3i::new(0, 0, 16)));
    assert!(Chunk::is_pos_in_bounds_sized(Vec3i::new(1, 1, 1), 2, 2, 2));
    assert!(!Chunk::is_pos_in_bounds_sized(Vec3i::new(2, 1, 1), 2, 2, 2));
}
