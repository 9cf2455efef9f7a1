//! One visible face of one block: a quad of four vertices.

use vstd::prelude::*;

use crate::block::BlockId;
use crate::block::spec_texture_index;
use crate::direction::Direction;
use crate::vec3::Vec3i;
use crate::vertex::Vertex;

verus! {

/// The unit corner offset of vertex `k` of the face pointing along `dir`.
///
/// Each face is the unit square of the cube spanning `[-1, 1]` around the
/// block's translation, lying in the plane picked out by `dir`. The four
/// corners are listed in the fixed winding shared by all six faces, so that
/// the repeating index pattern `[0, 1, 2, 2, 1, 3]` triangulates every quad
/// into two outward-facing, non-degenerate triangles.
pub open spec fn spec_corner_offset(dir: Direction, k: int) -> (int, int, int) {
    match dir {
        Direction::Left => if k == 0 {
            (-1, 1, -1)
        } else if k == 1 {
            (-1, 1, 1)
        } else if k == 2 {
            (-1, -1, -1)
        } else {
            (-1, -1, 1)
        },
        Direction::Right => if k == 0 {
            (1, 1, 1)
        } else if k == 1 {
            (1, 1, -1)
        } else if k == 2 {
            (1, -1, 1)
        } else {
            (1, -1, -1)
        },
        Direction::Bottom => if k == 0 {
            (-1, -1, -1)
        } else if k == 1 {
            (-1, -1, 1)
        } else if k == 2 {
            (1, -1, -1)
        } else {
            (1, -1, 1)
        },
        Direction::Top => if k == 0 {
            (-1, 1, 1)
        } else if k == 1 {
            (-1, 1, -1)
        } else if k == 2 {
            (1, 1, 1)
        } else {
            (1, 1, -1)
        },
        Direction::Back => if k == 0 {
            (1, -1, -1)
        } else if k == 1 {
            (1, 1, -1)
        } else if k == 2 {
            (-1, -1, -1)
        } else {
            (-1, 1, -1)
        },
        Direction::Front => if k == 0 {
            (1, 1, 1)
        } else if k == 1 {
            (1, -1, 1)
        } else if k == 2 {
            (-1, 1, 1)
        } else {
            (-1, -1, 1)
        },
    }
}

/// The UV corner selector of vertex `k` of the face pointing along `dir`.
pub open spec fn spec_corner_uv(dir: Direction, k: int) -> (u8, u8) {
    match dir {
        Direction::Back => if k == 0 {
            (1, 1)
        } else if k == 1 {
            (1, 0)
        } else if k == 2 {
            (0, 1)
        } else {
            (0, 0)
        },
        Direction::Front => if k == 0 {
            (1, 0)
        } else if k == 1 {
            (1, 1)
        } else if k == 2 {
            (0, 0)
        } else {
            (0, 1)
        },
        _ => if k == 0 {
            (0, 0)
        } else if k == 1 {
            (1, 0)
        } else if k == 2 {
            (0, 1)
        } else {
            (1, 1)
        },
    }
}

/// Vertex `k` of the quad for face `dir` of a block of material `block`
/// translated to `t`.
pub open spec fn spec_quad_vertex(block: BlockId, dir: Direction, t: Vec3i, k: int) -> Vertex {
    let (ox, oy, oz) = spec_corner_offset(dir, k);
    let (u, v) = spec_corner_uv(dir, k);
    Vertex {
        pos: Vec3i { x: (t.x + ox) as i32, y: (t.y + oy) as i32, z: (t.z + oz) as i32 },
        u,
        v,
        tile: spec_texture_index(block, dir),
    }
}

/// The four vertices of the quad for face `dir`, in emission order.
pub open spec fn spec_quad_vertices(block: BlockId, dir: Direction, t: Vec3i) -> Seq<Vertex> {
    seq![
        spec_quad_vertex(block, dir, t, 0),
        spec_quad_vertex(block, dir, t, 1),
        spec_quad_vertex(block, dir, t, 2),
        spec_quad_vertex(block, dir, t, 3),
    ]
}

/// The vertices of the first `n` of the six faces of a whole block at `t`,
/// concatenated in [`Direction::ALL`] order.
pub open spec fn spec_block_vertices_upto(block: BlockId, t: Vec3i, n: int) -> Seq<Vertex>
    decreases n,
{
    if n <= 0 {
        Seq::empty()
    } else {
        spec_block_vertices_upto(block, t, n - 1)
            + spec_quad_vertices(block, Direction::spec_nth(n - 1), t)
    }
}

/// True when a block translation leaves room for the unit corner offsets on
/// every axis, so no vertex coordinate overflows.
pub open spec fn translation_in_range(t: Vec3i) -> bool {
    &&& i32::MIN + 1 <= t.x <= i32::MAX - 1
    &&& i32::MIN + 1 <= t.y <= i32::MAX - 1
    &&& i32::MIN + 1 <= t.z <= i32::MAX - 1
}

/// One square face of one block, ready to be flattened into a chunk's vertex
/// array. Ephemeral: quads are built and immediately consumed.
#[derive(Debug, Clone, Copy, PartialEq, Eq)]
pub struct Quad {
    pub vertices: [Vertex; 4],
}

impl Quad {
    /// Emits the quad for face `dir` of a block of material `block` centered
    /// at `translation`.
    pub fn new(block: &BlockId, dir: Direction, translation: Vec3i) -> (r: Quad)
        requires
            *block != BlockId::AIR,
            translation_in_range(translation),
        ensures
            r.vertices@ == spec_quad_vertices(*block, dir, translation),
    {
        let t = translation;
        let q = match dir {
            Direction::Left => Quad {
                vertices: [
                    Vertex::quad(-1, 1, -1, t, 0, 0, block, &dir),
                    Vertex::quad(-1, 1, 1, t, 1, 0, block, &dir),
                    Vertex::quad(-1, -1, -1, t, 0, 1, block, &dir),
                    Vertex::quad(-1, -1, 1, t, 1, 1, block, &dir),
                ],
            },
            Direction::Right => Quad {
                vertices: [
                    Vertex::quad(1, 1, 1, t, 0, 0, block, &dir),
                    Vertex::quad(1, 1, -1, t, 1, 0, block, &dir),
                    Vertex::quad(1, -1, 1, t, 0, 1, block, &dir),
                    Vertex::quad(1, -1, -1, t, 1, 1, block, &dir),
                ],
            },
            Direction::Bottom => Quad {
                vertices: [
                    Vertex::quad(-1, -1, -1, t, 0, 0, block, &dir),
                    Vertex::quad(-1, -1, 1, t, 1, 0, block, &dir),
                    Vertex::quad(1, -1, -1, t, 0, 1, block, &dir),
                    Vertex::quad(1, -1, 1, t, 1, 1, block, &dir),
                ],
            },
            Direction::Top => Quad {
                vertices: [
                    Vertex::quad(-1, 1, 1, t, 0, 0, block, &dir),
                    Vertex::quad(-1, 1, -1, t, 1, 0, block, &dir),
                    Vertex::quad(1, 1, 1, t, 0, 1, block, &dir),
                    Vertex::quad(1, 1, -1, t, 1, 1, block, &dir),
                ],
            },
            Direction::Back => Quad {
                vertices: [
                    Vertex::quad(1, -1, -1, t, 1, 1, block, &dir),
                    Vertex::quad(1, 1, -1, t, 1, 0, block, &dir),
                    Vertex::quad(-1, -1, -1, t, 0, 1, block, &dir),
                    Vertex::quad(-1, 1, -1, t, 0, 0, block, &dir),
                ],
            },
            Direction::Front => Quad {
                vertices: [
                    Vertex::quad(1, 1, 1, t, 1, 0, block, &dir),
                    Vertex::quad(1, -1, 1, t, 1, 1, block, &dir),
                    Vertex::quad(-1, 1, 1, t, 0, 0, block, &dir),
                    Vertex::quad(-1, -1, 1, t, 0, 1, block, &dir),
                ],
            },
        };
        proof {
            assert(q.vertices@ =~= spec_quad_vertices(*block, dir, translation));
        }
        q
    }

    /// Builds the six face quads of one whole block at `pos`, one per entry
    /// of [`Direction::ALL`], in that order.
    pub fn create_block_quads(id: &BlockId, pos: Vec3i) -> (r: [Quad; 6])
        requires
            *id != BlockId::AIR,
            translation_in_range(pos),
        ensures
            forall|k: int|
                0 <= k < 6 ==> r@[k].vertices@ == spec_quad_vertices(
                    *id,
                    Direction::spec_nth(k),
                    pos,
                ),
    {
        let r = [
            Quad::new(id, Direction::Left, pos),
            Quad::new(id, Direction::Right, pos),
            Quad::new(id, Direction::Bottom, pos),
            Quad::new(id, Direction::Top, pos),
            Quad::new(id, Direction::Back, pos),
            Quad::new(id, Direction::Front, pos),
        ];
        r
    }
}

} // verus!
