use voxgen::block::Block;
use voxgen::block::BlockId;
use voxgen::direction::Direction;
use voxgen::mesh::Mesh;
use voxgen::quad::Quad;
use voxgen::vec3::Vec3i;
use voxgen::vertex::Vertex;

#[test]
fn texture_table_per_face() {
    assert_eq!(BlockId::GRASS.texture_index(&Direction::Top), 2);
    assert_eq!(BlockId::GRASS.texture_index(&Direction::Bottom), 0);
    assert_eq!(BlockId::GRASS.texture_index(&Direction::Left), 1);
    assert_eq!(BlockId::GRASS.texture_index(&Direction::Right), 1);
    assert_eq!(BlockId::GRASS.texture_index(&Direction::Back), 1);
    assert_eq!(BlockId::GRASS.texture_index(&Direction::Front), 1);
    for dir in Direction::ALL {
        assert_eq!(BlockId::DIRT.texture_index(&dir), 0);
        assert_eq!(BlockId::STONE.texture_index(&dir), 3);
    }
}

#[test]
fn direction_all_order_and_normals() {
    let expected = [
        (Direction::Left, (-1, 0, 0)),
        (Direction::Right, (1, 0, 0)),
        (Direction::Bottom, (0, -1, 0)),
        (Direction::Top, (0, 1, 0)),
        (Direction::Back, (0, 0, -1)),
        (Direction::Front, (0, 0, 1)),
    ];
    assert_eq!(Direction::ALL.len(), 6);
    for (k, &(dir, (nx, ny, nz))) in expected.iter().enumerate() {
        assert_eq!(Direction::ALL[k], dir);
        assert_eq!(Direction::nth(k), dir);
        let n = dir.normalized();
        assert_eq!((n.x, n.y, n.z), (nx, ny, nz));
    }
}

#[test]
fn quad_left_face_corners() {
    let q = Quad::new(&BlockId::GRASS, Direction::Left, Vec3i::new(10, 20, 30));
    let expected = [
        (Vec3i::new(9, 21, 29), 0, 0),
        (Vec3i::new(9, 21, 31), 1, 0),
        (Vec3i::new(9, 19, 29), 0, 1),
        (Vec3i::new(9, 19, 31), 1, 1),
    ];
    for (k, &(pos, u, v)) in expected.iter().enumerate() {
        assert_eq!(q.vertices[k].pos, pos);
        assert_eq!((q.vertices[k].u, q.vertices[k].v), (u, v));
        // every Left-face vertex shows the grass side tile
        assert_eq!(q.vertices[k].tile, 1);
    }
}

#[test]
fn quad_top_face_uses_top_tile() {
    let q = Quad::new(&BlockId::GRASS, Direction::Top, Vec3i::new(0, 0, 0));
    for k in 0..4 {
        assert_eq!(q.vertices[k].pos.y, 1);
        assert_eq!(q.vertices[k].tile, 2);
    }
}

#[test]
fn vertex_quad_translates_offsets() {
    let v = Vertex::quad(
        -1,
        1,
        -1,
        Vec3i::new(100, 200, 300),
        0,
        1,
        &BlockId::STONE,
        &Direction::Back,
    );
    assert_eq!(v.pos, Vec3i::new(99, 201, 299));
    assert_eq!((v.u, v.v), (0, 1));
    assert_eq!(v.tile, 3);
}

#[test]
fn vertex_new_keeps_fields() {
    let v = Vertex::new(Vec3i::new(1, 2, 3), 1, 0, 7);
    assert_eq!(v.pos, Vec3i::new(1, 2, 3));
    assert_eq!((v.u, v.v, v.tile), (1, 0, 7));
}

#[test]
fn mesh_cube_has_six_quads() {
    let mesh = Mesh::cube(&BlockId::DIRT);
    assert_eq!(mesh.vertices().len(), 24);
    // faces come in ALL order: the first four vertices are the Left face
    assert_eq!(mesh.vertices()[0].pos, Vec3i::new(-1, 1, -1));
    // and the last four are the Front face
    assert_eq!(mesh.vertices()[20].pos, Vec3i::new(1, 1, 1));
}

#[test]
fn mesh_push_quad_appends_four_vertices() {
    let mut mesh = Mesh::new(&[]);
    assert_eq!(mesh.vertices().len(), 0);
    let q = Quad::new(&BlockId::STONE, Direction::Right, Vec3i::new(0, 0, 0));
    mesh.push_quad(q);
    assert_eq!(mesh.vertices().len(), 4);
    assert_eq!(mesh.vertices()[0], q.vertices[0]);
    assert_eq!(mesh.vertices()[3], q.vertices[3]);
}

#[test]
fn mesh_new_copies_vertices() {
    let vs = [
        Vertex::new(Vec3i::new(0, 0, 0), 0, 0, 0),
        Vertex::new(Vec3i::new(1, 0, 0), 1, 0, 0),
    ];
    let mesh = Mesh::new(&vs);
    assert_eq!(mesh.vertices(), &vs[..]);
}

#[test]
fn block_new_builds_six_quads() {
    let b = Block::new(BlockId::GRASS, Vec3i::new(4, 5, 6));
    assert_eq!(*b.id(), BlockId::GRASS);
    assert_eq!(*b.pos(), Vec3i::new(4, 5, 6));
    assert_eq!(b.quads.len(), 6);
    let vs = b.vertices();
    assert_eq!(vs.len(), 24);
    // first vertex: Left face corner (-1, 1, -1) translated by (4, 5, 6)
    assert_eq!(vs[0].pos, Vec3i::new(3, 6, 5));
}

#[test]
fn block_update_moves_quads_only() {
    let mut b = Block::new(BlockId::DIRT, Vec3i::new(0, 0, 0));
    b.update(Vec3i::new(10, 0, 0));
    assert_eq!(*b.pos(), Vec3i::new(0, 0, 0));
    assert_eq!(b.vertices()[0].pos, Vec3i::new(9, 1, -1));
}
