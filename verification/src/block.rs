//! Block materials and their atlas texture mapping.

use vstd::prelude::*;

use crate::direction::Direction;
use crate::quad::Quad;
use crate::quad::spec_quad_vertices;
use crate::quad::translation_in_range;
use crate::vec3::Vec3i;
use crate::vertex::Vertex;

verus! {

/// The material of one voxel cell. `AIR` denotes "no geometry": it never
/// produces quads and has no texture mapping.
#[derive(Debug, Clone, Copy, PartialEq, Eq, Structural)]
pub enum BlockId {
    AIR,
    DIRT,
    GRASS,
    STONE,
}

/// The atlas tile shown on face `dir` of a block of material `id`.
///
/// Total over every material except `AIR`, which never reaches the atlas.
/// Grass blocks show a grass tile on top, dirt below and a grass-side tile on
/// the four side faces; dirt and stone show one tile on every face.
pub open spec fn spec_texture_index(id: BlockId, dir: Direction) -> u32 {
    match id {
        BlockId::AIR => 0,
        BlockId::DIRT => 0,
        BlockId::GRASS => match dir {
            Direction::Top => 2,
            Direction::Bottom => 0,
            _ => 1,
        },
        BlockId::STONE => 3,
    }
}

impl BlockId {
    /// Resolves the atlas tile for one face of this block.
    pub fn texture_index(&self, dir: &Direction) -> (r: u32)
        requires
            *self != BlockId::AIR,
        ensures
            r == spec_texture_index(*self, *dir),
    {
        match self {
            BlockId::AIR => 0,
            BlockId::DIRT => 0,
            BlockId::GRASS => match dir {
                Direction::Top => 2,
                Direction::Bottom => 0,
                _ => 1,
            },
            BlockId::STONE => 3,
        }
    }
}

/// One standalone block with its six precomputed face quads, for drawing a
/// single cube outside the chunk pipeline.
#[derive(Debug, Clone)]
pub struct Block {
    pub id: BlockId,
    pub pos: Vec3i,
    pub quads: [Quad; 6],
}

impl Block {
    /// Builds a block of material `id` at `pos` with all six face quads.
    pub fn new(id: BlockId, pos: Vec3i) -> (r: Block)
        requires
            id != BlockId::AIR,
            translation_in_range(pos),
        ensures
            r.id == id,
            r.pos == pos,
            forall|k: int|
                0 <= k < 6 ==> (#[trigger] r.quads@[k]).vertices@ == spec_quad_vertices(
                    id,
                    Direction::spec_nth(k),
                    pos,
                ),
    {
        let quads = Quad::create_block_quads(&id, pos);
        Block { id, pos, quads }
    }

    /// Flattens the six quads into one vertex array, in quad order.
    pub fn vertices(&self) -> (r: Vec<Vertex>)
        ensures
            r@ == self.quads@[0].vertices@ + self.quads@[1].vertices@ + self.quads@[2].vertices@
                + self.quads@[3].vertices@ + self.quads@[4].vertices@ + self.quads@[5].vertices@,
    {
        let mut vertices: Vec<Vertex> = Vec::new();
        vertices.extend_from_slice(self.quads[0].vertices.as_slice());
        vertices.extend_from_slice(self.quads[1].vertices.as_slice());
        vertices.extend_from_slice(self.quads[2].vertices.as_slice());
        vertices.extend_from_slice(self.quads[3].vertices.as_slice());
        vertices.extend_from_slice(self.quads[4].vertices.as_slice());
        vertices.extend_from_slice(self.quads[5].vertices.as_slice());
        proof {
            assert(vertices@ =~= self.quads@[0].vertices@ + self.quads@[1].vertices@
                + self.quads@[2].vertices@ + self.quads@[3].vertices@ + self.quads@[4].vertices@
                + self.quads@[5].vertices@);
        }
        vertices
    }

    /// The block's material.
    pub fn id(&self) -> (r: &BlockId)
        ensures
            *r == self.id,
    {
        &self.id
    }

    /// The block's position.
    pub fn pos(&self) -> (r: &Vec3i)
        ensures
            *r == self.pos,
    {
        &self.pos
    }

    /// Rebuilds the six face quads at a new translation; the recorded
    /// position is left as it was.
    pub fn update(&mut self, offset: Vec3i)
        requires
            old(self).id != BlockId::AIR,
            translation_in_range(offset),
        ensures
            final(self).id == old(self).id,
            final(self).pos == old(self).pos,
            forall|k: int|
                0 <= k < 6 ==> (#[trigger] final(self).quads@[k]).vertices@ == spec_quad_vertices(
                    old(self).id,
                    Direction::spec_nth(k),
                    offset,
                ),
    {
        self.quads = Quad::create_block_quads(&self.id, offset);
    }
}

} // verus!
