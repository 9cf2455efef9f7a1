//! A single mesh vertex: an integer world-space position and its atlas
//! texture coordinate.

use vstd::prelude::*;

use crate::block::BlockId;
use crate::block::spec_texture_index;
use crate::direction::Direction;
use crate::vec3::Vec3i;

verus! {

/// One vertex of a block face.
///
/// Positions are integers: every corner of every block face sits on the
/// integer grid (a unit corner offset plus an integer world translation).
/// The texture coordinate is kept in atlas terms — a tile index and a corner
/// selector `(u, v)` with components in `{0, 1}` — and is normalized to
/// floating-point atlas coordinates only at the GPU boundary, outside this
/// crate.
#[derive(Debug, Clone, Copy, PartialEq, Eq, Hash, Structural)]
pub struct Vertex {
    pub pos: Vec3i,
    pub u: u8,
    pub v: u8,
    pub tile: u32,
}

impl Vertex {
    /// Builds a vertex from its position, UV corner selector and atlas tile.
    pub fn new(pos: Vec3i, u: u8, v: u8, tile: u32) -> (r: Vertex)
        ensures
            r == (Vertex { pos, u, v, tile }),
    {
        Vertex { pos, u, v, tile }
    }

    /// Builds one vertex of a quad: a unit corner offset `(v1, v2, v3)`
    /// translated by `at`, with the atlas tile resolved from the block
    /// material and face direction.
    pub fn quad(v1: i32, v2: i32, v3: i32, at: Vec3i, u: u8, v: u8, id: &BlockId, dir: &Direction)
        -> (r: Vertex)
        requires
            *id != BlockId::AIR,
            i32::MIN <= at.x + v1 <= i32::MAX,
            i32::MIN <= at.y + v2 <= i32::MAX,
            i32::MIN <= at.z + v3 <= i32::MAX,
        ensures
            r.pos.x == at.x + v1,
            r.pos.y == at.y + v2,
            r.pos.z == at.z + v3,
            r.u == u,
            r.v == v,
            r.tile == spec_texture_index(*id, *dir),
    {
        let tile = id.texture_index(dir);
        Vertex { pos: Vec3i { x: at.x + v1, y: at.y + v2, z: at.z + v3 }, u, v, tile }
    }
}

} // verus!
