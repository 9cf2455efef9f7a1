//! A growable vertex mesh assembled quad by quad.

use vstd::prelude::*;

use crate::block::BlockId;
use crate::direction::Direction;
use crate::quad::Quad;
use crate::quad::spec_block_vertices_upto;
use crate::quad::spec_quad_vertices;
use crate::vec3::Vec3i;
use crate::vertex::Vertex;

verus! {

/// A flat vertex array built by appending quads; quads share the common
/// two-triangle index pattern, so no per-mesh index data is stored here.
#[derive(Debug)]
pub struct Mesh {
    vertices: Vec<Vertex>,
}

impl View for Mesh {
    type V = Seq<Vertex>;

    /// A mesh is abstractly its vertex sequence.
    closed spec fn view(&self) -> Seq<Vertex> {
        self.vertices@
    }
}

impl Mesh {
    /// Builds a mesh over a copy of the given vertices.
    pub fn new(vertices: &[Vertex]) -> (r: Mesh)
        ensures
            r@ == vertices@,
    {
        Mesh { vertices: vstd::slice::slice_to_vec(vertices) }
    }

    /// The full six-face mesh of a single block of material `block_id`,
    /// centered at the origin.
    pub fn cube(block_id: &BlockId) -> (r: Mesh)
        requires
            *block_id != BlockId::AIR,
        ensures
            r@ == spec_block_vertices_upto(
                *block_id,
                Vec3i { x: 0, y: 0, z: 0 },
                6,
            ),
    {
        let origin = Vec3i { x: 0, y: 0, z: 0 };
        let mut this = Mesh { vertices: Vec::new() };
        this.push_quad(Quad::new(block_id, Direction::Left, origin));
        this.push_quad(Quad::new(block_id, Direction::Right, origin));
        this.push_quad(Quad::new(block_id, Direction::Bottom, origin));
        this.push_quad(Quad::new(block_id, Direction::Top, origin));
        this.push_quad(Quad::new(block_id, Direction::Back, origin));
        this.push_quad(Quad::new(block_id, Direction::Front, origin));
        proof {
            reveal_with_fuel(spec_block_vertices_upto, 7);
            assert(this@ =~= spec_block_vertices_upto(*block_id, origin, 6));
        }
        this
    }

    /// Appends the four vertices of `quad`, in the quad's own order.
    pub fn push_quad(&mut self, quad: Quad)
        ensures
            final(self)@ == old(self)@ + quad.vertices@,
    {
        self.vertices.push(quad.vertices[0]);
        self.vertices.push(quad.vertices[1]);
        self.vertices.push(quad.vertices[2]);
        self.vertices.push(quad.vertices[3]);
        proof {
            assert(self.vertices@ =~= old(self).vertices@ + quad.vertices@);
        }
    }

    /// Read access to the assembled vertex array.
    pub fn vertices(&self) -> (r: &[Vertex])
        ensures
            r@ == self@,
    {
        self.vertices.as_slice()
    }
}

} // verus!
