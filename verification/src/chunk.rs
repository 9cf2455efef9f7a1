//! Chunks: the fixed-size block grid, its generated mesh, and the integer
//! chunk-coordinate grid.

use vstd::prelude::*;

use crate::block::BlockId;
use crate::buffer::MAX_INDEXED_VERTICES;
use crate::buffer::compute_cube_indices;
use crate::buffer::spec_cube_index;
use crate::direction::Direction;
use crate::direction::spec_normal;
use crate::quad::Quad;
use crate::quad::spec_quad_vertices;
use crate::vec3::Vec3i;
use crate::vertex::Vertex;

verus! {

/// Cells along the world X axis of one chunk.
pub const CHUNK_WIDTH: usize = 16;

/// Cells along the world Y axis of one chunk.
pub const CHUNK_HEIGHT: usize = 256;

/// Cells along the world Z axis of one chunk.
pub const CHUNK_DEPTH: usize = 16;

/// Cells in one chunk's dense block array.
pub const TOTAL_CHUNK_SIZE: usize = CHUNK_WIDTH * CHUNK_HEIGHT * CHUNK_DEPTH;

/// Largest chunk coordinate magnitude the generator accepts: keeps every
/// world-space vertex coordinate (sixteen times the chunk coordinate, plus a
/// local offset and a unit corner offset) inside `i32`.
pub const MAX_CHUNK_COORD: i32 = 125_000_002;

/// Represents the offset or indices of a chunk relative to the world
/// position: world position `(32, 0, -128)` lies in the chunk at `(2, -8)`
/// when chunks are 16 units wide and deep.
///
/// There is no vertical chunking, so a chunk coordinate has only `x` and `z`
/// components. Two chunk coordinates are equal exactly when both components
/// are; the streaming manager uses them as set keys.
#[derive(Debug, Clone, Copy, PartialEq, Eq, Hash, Structural)]
pub struct ChunkPos {
    pub x: i32,
    pub z: i32,
}

/// True when `pos` is close enough to the origin for chunk generation: all
/// of its world-space vertex coordinates fit in `i32`.
pub open spec fn chunk_pos_in_gen_range(pos: ChunkPos) -> bool {
    &&& -MAX_CHUNK_COORD <= pos.x <= MAX_CHUNK_COORD
    &&& -MAX_CHUNK_COORD <= pos.z <= MAX_CHUNK_COORD
}

/// The world-space origin corner of the chunk at `pos`, as a mathematical
/// pair `(x, z)`.
pub open spec fn spec_to_world(pos: ChunkPos) -> (int, int) {
    (pos.x * CHUNK_WIDTH as int, pos.z * CHUNK_DEPTH as int)
}

/// The chunk holding world position `(x, _, z)`: floor division of the
/// planar world coordinates by the chunk footprint.
pub open spec fn spec_from_world(x: int, z: int) -> (int, int) {
    (x / CHUNK_WIDTH as int, z / CHUNK_DEPTH as int)
}

/// Floor division of a world coordinate by 16, the chunk footprint length.
fn floor_div_16(v: i32) -> (r: i32)
    ensures
        r == v as int / 16,
{
    let q = v / 16;
    if v % 16 != 0 && v < 0 {
        q - 1
    } else {
        q
    }
}

impl ChunkPos {
    /// Builds the chunk coordinate `(x, z)`.
    pub fn new(x: i32, z: i32) -> (r: ChunkPos)
        ensures
            r == (ChunkPos { x, z }),
    {
        ChunkPos { x, z }
    }

    /// Component-wise sum, for offsetting one chunk coordinate by another.
    pub fn add(self, rhs: ChunkPos) -> (r: ChunkPos)
        requires
            i32::MIN <= self.x + rhs.x <= i32::MAX,
            i32::MIN <= self.z + rhs.z <= i32::MAX,
        ensures
            r.x == self.x + rhs.x,
            r.z == self.z + rhs.z,
    {
        ChunkPos { x: self.x + rhs.x, z: self.z + rhs.z }
    }

    /// Component-wise difference, for chunk-grid distance computations.
    pub fn sub(self, rhs: ChunkPos) -> (r: ChunkPos)
        requires
            i32::MIN <= self.x - rhs.x <= i32::MAX,
            i32::MIN <= self.z - rhs.z <= i32::MAX,
        ensures
            r.x == self.x - rhs.x,
            r.z == self.z - rhs.z,
    {
        ChunkPos { x: self.x - rhs.x, z: self.z - rhs.z }
    }

    /// Returns the chunk pos at the given world pos: the floor-division
    /// inverse of [`ChunkPos::to_world`]. The vertical component is ignored.
    pub fn from_world(pos: Vec3i) -> (r: ChunkPos)
        ensures
            (r.x as int, r.z as int) == spec_from_world(pos.x as int, pos.z as int),
    {
        let x = floor_div_16(pos.x);
        let z = floor_div_16(pos.z);
        ChunkPos { x, z }
    }

    /// Returns the world pos of the current chunk: its origin corner, at
    /// ground level.
    pub fn to_world(&self) -> (r: Vec3i)
        requires
            chunk_pos_in_gen_range(*self),
        ensures
            (r.x as int, r.z as int) == spec_to_world(*self),
            r.y == 0,
    {
        Vec3i { x: self.x * 16, y: 0, z: self.z * 16 }
    }
}

/// Flattens a local cell coordinate to its index in the dense block array:
/// `x + y * width + z * width * height`.
pub fn compute_1d(x: usize, y: usize, z: usize) -> (r: usize)
    requires
        x < CHUNK_WIDTH,
        y < CHUNK_HEIGHT,
        z < CHUNK_DEPTH,
    ensures
        r == x + y * CHUNK_WIDTH as int + z * (CHUNK_WIDTH * CHUNK_HEIGHT) as int,
        r < TOTAL_CHUNK_SIZE,
{
    x + y * CHUNK_WIDTH + z * CHUNK_WIDTH * CHUNK_HEIGHT
}

/// The vertex and index arrays of one generated chunk, plus the number of
/// index elements to draw. Immutable once built: regeneration replaces the
/// whole mesh.
#[derive(Debug)]
pub struct ChunkMesh {
    pub vertices: Vec<Vertex>,
    pub indices: Vec<u32>,
    pub num_elements: u32,
}

impl ChunkMesh {
    /// Packs generated vertex and index arrays into a mesh; the element
    /// count is the index count.
    pub fn new(vertices: Vec<Vertex>, indices: Vec<u32>) -> (r: ChunkMesh)
        requires
            indices@.len() <= u32::MAX,
        ensures
            r.vertices == vertices,
            r.indices == indices,
            r.num_elements == indices@.len(),
    {
        let num_elements = indices.len() as u32;
        ChunkMesh { vertices, num_elements, indices }
    }
}

/// Local X coordinate of the cell at linear index `i` in a grid `w` wide.
pub open spec fn spec_cell_x(i: int, w: int) -> int {
    i % w
}

/// Local Y coordinate of the cell at linear index `i`.
pub open spec fn spec_cell_y(i: int, w: int, h: int) -> int {
    (i / w) % h
}

/// Local Z coordinate of the cell at linear index `i`.
pub open spec fn spec_cell_z(i: int, w: int, h: int) -> int {
    i / (w * h)
}

/// The terrain rule: the topmost layer is grass, every other cell is dirt.
pub open spec fn spec_block_at(y: int, h: int) -> BlockId {
    if y == h - 1 {
        BlockId::GRASS
    } else {
        BlockId::DIRT
    }
}

/// True when the local position `(x, y, z)` lies inside a `w` by `h` by `d`
/// cell grid.
pub open spec fn spec_in_bounds(x: int, y: int, z: int, w: int, h: int, d: int) -> bool {
    &&& 0 <= x < w
    &&& 0 <= y < h
    &&& 0 <= z < d
}

/// A face of the cell at `(x, y, z)` is emitted exactly when its neighbor one
/// step along `dir` falls outside the cell grid. No other visibility test is
/// performed: chunk boundaries always produce geometry, even when an adjacent
/// chunk is loaded. That duplicate boundary geometry between neighbors is the
/// deliberate meshing simplification of this renderer, not an oversight.
pub open spec fn spec_face_visible(
    x: int,
    y: int,
    z: int,
    dir: Direction,
    w: int,
    h: int,
    d: int,
) -> bool {
    let (nx, ny, nz) = spec_normal(dir);
    !spec_in_bounds(x + nx, y + ny, z + nz, w, h, d)
}

/// The world translation of the cell at local `(x, y, z)` of the chunk at
/// `pos`: the chunk's world origin plus the local offset.
pub open spec fn spec_cell_translation(pos: ChunkPos, x: int, y: int, z: int) -> Vec3i {
    Vec3i {
        x: (pos.x * CHUNK_WIDTH as int + x) as i32,
        y: y as i32,
        z: (pos.z * CHUNK_DEPTH as int + z) as i32,
    }
}

/// The vertices the cell at `(x, y, z)` emits for the first `n` directions of
/// [`Direction::ALL`], concatenated in that order.
pub open spec fn spec_cell_vertices_upto(
    pos: ChunkPos,
    x: int,
    y: int,
    z: int,
    w: int,
    h: int,
    d: int,
    n: int,
) -> Seq<Vertex>
    decreases n,
{
    if n <= 0 {
        Seq::empty()
    } else {
        spec_cell_vertices_upto(pos, x, y, z, w, h, d, n - 1) + if spec_face_visible(
            x,
            y,
            z,
            Direction::spec_nth(n - 1),
            w,
            h,
            d,
        ) {
            spec_quad_vertices(
                spec_block_at(y, h),
                Direction::spec_nth(n - 1),
                spec_cell_translation(pos, x, y, z),
            )
        } else {
            Seq::empty()
        }
    }
}

/// All vertices the cell at `(x, y, z)` emits: one quad per out-of-bounds
/// neighbor, in [`Direction::ALL`] order.
pub open spec fn spec_cell_vertices(
    pos: ChunkPos,
    x: int,
    y: int,
    z: int,
    w: int,
    h: int,
    d: int,
) -> Seq<Vertex> {
    spec_cell_vertices_upto(pos, x, y, z, w, h, d, 6)
}

/// The vertices of the first `n` cells of the chunk at `pos`, in ascending
/// linear cell order — the fixed concatenation order that makes generation
/// deterministic.
pub open spec fn spec_chunk_vertices_upto(
    pos: ChunkPos,
    w: int,
    h: int,
    d: int,
    n: int,
) -> Seq<Vertex>
    decreases n,
{
    if n <= 0 {
        Seq::empty()
    } else {
        spec_chunk_vertices_upto(pos, w, h, d, n - 1) + spec_cell_vertices(
            pos,
            spec_cell_x(n - 1, w),
            spec_cell_y(n - 1, w, h),
            spec_cell_z(n - 1, w, h),
            w,
            h,
            d,
        )
    }
}

/// The whole vertex array of the chunk at `pos` over a `w` by `h` by `d`
/// grid.
pub open spec fn spec_chunk_vertices(pos: ChunkPos, w: int, h: int, d: int) -> Seq<Vertex> {
    spec_chunk_vertices_upto(pos, w, h, d, w * h * d)
}

/// The block array of a generated chunk: determined by the terrain rule
/// alone, independent of the chunk coordinate.
pub open spec fn spec_chunk_blocks(w: int, h: int, d: int) -> Seq<BlockId> {
    Seq::new((w * h * d) as nat, |i: int| spec_block_at(spec_cell_y(i, w, h), h))
}

/// Cell-grid dimensions the generator accepts: positive, small enough for
/// local coordinates to fit in `i32`, and with few enough cells for the worst
/// case of 24 vertices per cell to stay under the index builder's cap.
pub open spec fn spec_dims_valid(w: int, h: int, d: int) -> bool {
    &&& 1 <= w <= 65536
    &&& 1 <= h <= 65536
    &&& 1 <= d <= 65536
    &&& 24 * (w * h * d) <= MAX_INDEXED_VERTICES
}

/// A cell emits between zero and six quads, always a whole number of them.
pub proof fn lemma_cell_vertices_upto_len(
    pos: ChunkPos,
    x: int,
    y: int,
    z: int,
    w: int,
    h: int,
    d: int,
    n: int,
)
    requires
        0 <= n <= 6,
    ensures
        spec_cell_vertices_upto(pos, x, y, z, w, h, d, n).len() % 4 == 0,
        spec_cell_vertices_upto(pos, x, y, z, w, h, d, n).len() <= 4 * n,
    decreases n,
{
    if n > 0 {
        lemma_cell_vertices_upto_len(pos, x, y, z, w, h, d, n - 1);
    }
}

/// A chunk prefix of `n` cells emits at most 24 vertices per cell, always a
/// whole number of quads.
pub proof fn lemma_chunk_vertices_upto_len(pos: ChunkPos, w: int, h: int, d: int, n: int)
    requires
        0 <= n,
    ensures
        spec_chunk_vertices_upto(pos, w, h, d, n).len() % 4 == 0,
        spec_chunk_vertices_upto(pos, w, h, d, n).len() <= 24 * n,
    decreases n,
{
    if n > 0 {
        lemma_chunk_vertices_upto_len(pos, w, h, d, n - 1);
        lemma_cell_vertices_upto_len(
            pos,
            spec_cell_x(n - 1, w),
            spec_cell_y(n - 1, w, h),
            spec_cell_z(n - 1, w, h),
            w,
            h,
            d,
            6,
        );
    }
}

/// Generation is deterministic: any two generation results for the same
/// chunk coordinate — block array, vertex array and index array each pinned
/// by [`Chunk::generate`]'s contract — are identical, element for element.
pub proof fn lemma_generate_deterministic(
    pos: ChunkPos,
    blocks1: Seq<BlockId>,
    vertices1: Seq<Vertex>,
    indices1: Seq<u32>,
    blocks2: Seq<BlockId>,
    vertices2: Seq<Vertex>,
    indices2: Seq<u32>,
)
    requires
        blocks1 == spec_chunk_blocks(CHUNK_WIDTH as int, CHUNK_HEIGHT as int, CHUNK_DEPTH as int),
        vertices1 == spec_chunk_vertices(
            pos,
            CHUNK_WIDTH as int,
            CHUNK_HEIGHT as int,
            CHUNK_DEPTH as int,
        ),
        indices1.len() == vertices1.len() / 4 * 6,
        forall|i: int| 0 <= i < indices1.len() ==> indices1[i] == spec_cube_index(i),
        blocks2 == spec_chunk_blocks(CHUNK_WIDTH as int, CHUNK_HEIGHT as int, CHUNK_DEPTH as int),
        vertices2 == spec_chunk_vertices(
            pos,
            CHUNK_WIDTH as int,
            CHUNK_HEIGHT as int,
            CHUNK_DEPTH as int,
        ),
        indices2.len() == vertices2.len() / 4 * 6,
        forall|i: int| 0 <= i < indices2.len() ==> indices2[i] == spec_cube_index(i),
    ensures
        blocks1 == blocks2,
        vertices1 == vertices2,
        indices1 == indices2,
{
    assert forall|i: int| 0 <= i < indices1.len() implies indices1[i] == indices2[i] by {
        assert(indices1[i] == spec_cube_index(i));
        assert(indices2[i] == spec_cube_index(i));
    }
    assert(indices1 =~= indices2);
}

/// The round trip from a chunk coordinate through world space and back:
/// every world position strictly inside the chunk's footprint — its origin
/// corner offset by `(ox, oz)` with `0 <= ox < CHUNK_WIDTH` and
/// `0 <= oz < CHUNK_DEPTH` — maps back to the same chunk coordinate.
pub proof fn lemma_chunk_pos_round_trip(p: ChunkPos, ox: int, oz: int)
    requires
        chunk_pos_in_gen_range(p),
        0 <= ox < CHUNK_WIDTH,
        0 <= oz < CHUNK_DEPTH,
    ensures
        spec_from_world(spec_to_world(p).0 + ox, spec_to_world(p).1 + oz) == (
            p.x as int,
            p.z as int,
        ),
{
    vstd::arithmetic::div_mod::lemma_div_multiples_vanish_fancy(p.x as int, ox, 16);
    vstd::arithmetic::div_mod::lemma_div_multiples_vanish_fancy(p.z as int, oz, 16);
}

/// The chunk itself: the dense block grid and the mesh generated from it,
/// tagged with the chunk coordinate and the streaming `loaded` flag.
///
/// Blocks and mesh are produced together by [`Chunk::generate`] and never
/// mutated in place; regeneration replaces the whole chunk. The GPU buffer
/// built from the mesh is owned outside this crate, keyed by `pos`.
#[derive(Debug)]
pub struct Chunk {
    pub blocks: Vec<BlockId>,
    pub pos: ChunkPos,
    pub mesh: ChunkMesh,
    pub loaded: bool,
}

impl Chunk {
    /// A well-formed chunk is exactly what [`Chunk::generate`] produces for
    /// its coordinate.
    pub open spec fn wf(self) -> bool {
        &&& chunk_pos_in_gen_range(self.pos)
        &&& self.blocks@ == spec_chunk_blocks(
            CHUNK_WIDTH as int,
            CHUNK_HEIGHT as int,
            CHUNK_DEPTH as int,
        )
        &&& self.mesh.vertices@ == spec_chunk_vertices(
            self.pos,
            CHUNK_WIDTH as int,
            CHUNK_HEIGHT as int,
            CHUNK_DEPTH as int,
        )
        &&& self.mesh.indices@.len() == self.mesh.vertices@.len() / 4 * 6
        &&& forall|i: int|
            0 <= i < self.mesh.indices@.len() ==> self.mesh.indices@[i] == spec_cube_index(i)
        &&& self.mesh.num_elements == self.mesh.indices@.len()
    }

    /// Generates the chunk at `pos` and marks it loaded.
    pub fn new(pos: ChunkPos) -> (r: Chunk)
        requires
            chunk_pos_in_gen_range(pos),
        ensures
            r.wf(),
            r.pos == pos,
            r.loaded,
    {
        let (blocks, mesh) = Self::generate(pos);
        Chunk { blocks, pos, mesh, loaded: true }
    }

    /// Generates the chunk at `pos` over the standard chunk dimensions.
    ///
    /// The result is a function of `pos` alone: two calls with the same
    /// coordinate produce identical block and mesh data.
    pub fn generate(pos: ChunkPos) -> (r: (Vec<BlockId>, ChunkMesh))
        requires
            chunk_pos_in_gen_range(pos),
        ensures
            r.0@ == spec_chunk_blocks(CHUNK_WIDTH as int, CHUNK_HEIGHT as int, CHUNK_DEPTH as int),
            r.1.vertices@ == spec_chunk_vertices(
                pos,
                CHUNK_WIDTH as int,
                CHUNK_HEIGHT as int,
                CHUNK_DEPTH as int,
            ),
            r.1.indices@.len() == r.1.vertices@.len() / 4 * 6,
            forall|i: int| 0 <= i < r.1.indices@.len() ==> r.1.indices@[i] == spec_cube_index(i),
            r.1.num_elements == r.1.indices@.len(),
    {
        Self::generate_sized(pos, CHUNK_WIDTH, CHUNK_HEIGHT, CHUNK_DEPTH)
    }

    /// Generates the block grid and mesh of the chunk at `pos` over a cell
    /// grid of the given dimensions.
    ///
    /// Every linear cell index in order is decoded to its local position, the
    /// terrain rule picks its material, and one quad is emitted for every
    /// neighbor check that leaves the grid, in [`Direction::ALL`] order. The
    /// cells are independent of each other: the fixed ascending concatenation
    /// order, not any evaluation order, determines the output.
    pub fn generate_sized(pos: ChunkPos, width: usize, height: usize, depth: usize) -> (r: (
        Vec<BlockId>,
        ChunkMesh,
    ))
        requires
            chunk_pos_in_gen_range(pos),
            spec_dims_valid(width as int, height as int, depth as int),
        ensures
            r.0@ == spec_chunk_blocks(width as int, height as int, depth as int),
            r.1.vertices@ == spec_chunk_vertices(pos, width as int, height as int, depth as int),
            r.1.indices@.len() == r.1.vertices@.len() / 4 * 6,
            forall|i: int| 0 <= i < r.1.indices@.len() ==> r.1.indices@[i] == spec_cube_index(i),
            r.1.num_elements == r.1.indices@.len(),
    {
        let ghost w = width as int;
        let ghost h = height as int;
        let ghost d = depth as int;
        proof {
            assert(width * height <= width * height * depth && width * height * depth
                <= MAX_INDEXED_VERTICES) by (nonlinear_arith)
                requires
                    1 <= width <= 65536,
                    1 <= height <= 65536,
                    1 <= depth <= 65536,
                    24 * ((width * height * depth) as int) <= MAX_INDEXED_VERTICES,
            ;
        }
        let plane = width * height;
        let total = plane * depth;
        let world = pos.to_world();

        let mut blocks: Vec<BlockId> = Vec::new();
        let mut vertices: Vec<Vertex> = Vec::new();
        let mut index: usize = 0;
        while index < total
            invariant
                chunk_pos_in_gen_range(pos),
                spec_dims_valid(w, h, d),
                w == width as int && h == height as int && d == depth as int,
                plane == width * height,
                total == w * h * d,
                total <= MAX_INDEXED_VERTICES,
                (world.x as int, world.z as int) == spec_to_world(pos),
                world.y == 0,
                index <= total,
                blocks@.len() == index,
                forall|j: int|
                    0 <= j < index ==> blocks@[j] == spec_block_at(spec_cell_y(j, w, h), h),
                vertices@ == spec_chunk_vertices_upto(pos, w, h, d, index as int),
            decreases total - index,
        {
            let x = index % width;
            let y = (index / width) % height;
            let z = (index / plane) % depth;
            proof {
                assert(x == spec_cell_x(index as int, w));
                assert(y == spec_cell_y(index as int, w, h));
                vstd::arithmetic::div_mod::lemma_multiply_divide_lt(index as int, w * h, d);
                vstd::arithmetic::div_mod::lemma_small_mod(
                    (index as int / (w * h)) as nat,
                    depth as nat,
                );
                assert(z == index as int / (w * h));
            }
            let block_in_chunk = if y == height - 1 {
                BlockId::GRASS
            } else {
                BlockId::DIRT
            };
            let lx = x as i32;
            let ly = y as i32;
            let lz = z as i32;
            let translation = Vec3i::new(world.x + lx, ly, world.z + lz);
            proof {
                assert(z == spec_cell_z(index as int, w, h));
                assert(block_in_chunk == spec_block_at(y as int, h));
                assert(translation == spec_cell_translation(pos, x as int, y as int, z as int));
                assert(crate::quad::translation_in_range(translation));
            }
            let mut dir_idx: usize = 0;
            while dir_idx < 6
                invariant
                    chunk_pos_in_gen_range(pos),
                    spec_dims_valid(w, h, d),
                    w == width as int && h == height as int && d == depth as int,
                    dir_idx <= 6,
                    index < total,
                    total == w * h * d,
                    x == spec_cell_x(index as int, w),
                    y == spec_cell_y(index as int, w, h),
                    z == spec_cell_z(index as int, w, h),
                    x < width && y < height && z < depth,
                    lx == x as i32 && ly == y as i32 && lz == z as i32,
                    block_in_chunk == spec_block_at(y as int, h),
                    block_in_chunk != BlockId::AIR,
                    translation == spec_cell_translation(pos, x as int, y as int, z as int),
                    crate::quad::translation_in_range(translation),
                    vertices@ == spec_chunk_vertices_upto(pos, w, h, d, index as int)
                        + spec_cell_vertices_upto(
                        pos,
                        x as int,
                        y as int,
                        z as int,
                        w,
                        h,
                        d,
                        dir_idx as int,
                    ),
                decreases 6 - dir_idx,
            {
                let dir = Direction::nth(dir_idx);
                let normal = dir.normalized();
                let neighbor = Vec3i::new(lx + normal.x, ly + normal.y, lz + normal.z);
                let ghost prev = vertices@;
                let ghost cell_prev = spec_cell_vertices_upto(
                    pos,
                    x as int,
                    y as int,
                    z as int,
                    w,
                    h,
                    d,
                    dir_idx as int,
                );
                if !Self::is_pos_in_bounds_sized(neighbor, width, height, depth) {
                    let quad = Quad::new(&block_in_chunk, dir, translation);
                    vertices.push(quad.vertices[0]);
                    vertices.push(quad.vertices[1]);
                    vertices.push(quad.vertices[2]);
                    vertices.push(quad.vertices[3]);
                    proof {
                        assert(spec_face_visible(x as int, y as int, z as int, dir, w, h, d));
                        assert(vertices@ =~= prev + spec_quad_vertices(
                            block_in_chunk,
                            dir,
                            translation,
                        ));
                        assert(spec_cell_vertices_upto(
                            pos,
                            x as int,
                            y as int,
                            z as int,
                            w,
                            h,
                            d,
                            dir_idx + 1,
                        ) =~= cell_prev + spec_quad_vertices(block_in_chunk, dir, translation));
                        assert(vertices@ =~= spec_chunk_vertices_upto(pos, w, h, d, index as int)
                            + spec_cell_vertices_upto(
                            pos,
                            x as int,
                            y as int,
                            z as int,
                            w,
                            h,
                            d,
                            dir_idx + 1,
                        ));
                    }
                } else {
                    proof {
                        assert(!spec_face_visible(x as int, y as int, z as int, dir, w, h, d));
                        assert(spec_cell_vertices_upto(
                            pos,
                            x as int,
                            y as int,
                            z as int,
                            w,
                            h,
                            d,
                            dir_idx + 1,
                        ) =~= cell_prev);
                    }
                }
                dir_idx = dir_idx + 1;
            }
            blocks.push(block_in_chunk);
            proof {
                assert(spec_chunk_vertices_upto(pos, w, h, d, index + 1)
                    == spec_chunk_vertices_upto(pos, w, h, d, index as int) + spec_cell_vertices(
                    pos,
                    x as int,
                    y as int,
                    z as int,
                    w,
                    h,
                    d,
                ));
            }
            index = index + 1;
        }
        proof {
            assert(blocks@ =~= spec_chunk_blocks(w, h, d));
            lemma_chunk_vertices_upto_len(pos, w, h, d, total as int);
        }
        let indices = compute_cube_indices(vertices.len());
        let mesh = ChunkMesh::new(vertices, indices);
        (blocks, mesh)
    }

    /// Checks if a given position is in bounds of the standard chunk grid.
    pub fn is_pos_in_bounds(pos: Vec3i) -> (r: bool)
        ensures
            r == spec_in_bounds(
                pos.x as int,
                pos.y as int,
                pos.z as int,
                CHUNK_WIDTH as int,
                CHUNK_HEIGHT as int,
                CHUNK_DEPTH as int,
            ),
    {
        Self::is_pos_in_bounds_sized(pos, CHUNK_WIDTH, CHUNK_HEIGHT, CHUNK_DEPTH)
    }

    /// Checks if a given position is in bounds of a cell grid of the given
    /// dimensions. Any negative component is out of bounds.
    pub fn is_pos_in_bounds_sized(pos: Vec3i, width: usize, height: usize, depth: usize) -> (r:
        bool)
        requires
            width <= 65536,
            height <= 65536,
            depth <= 65536,
        ensures
            r == spec_in_bounds(
                pos.x as int,
                pos.y as int,
                pos.z as int,
                width as int,
                height as int,
                depth as int,
            ),
    {
        if pos.x >= 0 && pos.y >= 0 && pos.z >= 0 {
            return pos.x < width as i32 && pos.y < height as i32 && pos.z < depth as i32;
        }
        false
    }
}

} // verus!
