//! Index-array generation for quad meshes.
//!
//! The GPU buffers that eventually hold the vertex and index arrays are
//! created and released outside this crate; only the index data itself is
//! computed here.

use vstd::prelude::*;

verus! {

/// Largest vertex count accepted by [`compute_cube_indices`]: keeps every
/// index inside `u32` and the index array length inside `usize` on every
/// target width.
pub const MAX_INDEXED_VERTICES: usize = 0x4000_0000;

/// The repeating local index pattern of one quad: two triangles over four
/// vertices.
pub open spec fn spec_index_pattern(j: int) -> int {
    if j == 0 {
        0
    } else if j == 1 {
        1
    } else if j == 2 {
        2
    } else if j == 3 {
        2
    } else if j == 4 {
        1
    } else {
        3
    }
}

/// The value of entry `i` of the index array: the pattern entry `i % 6`,
/// offset by four vertices for each preceding quad.
pub open spec fn spec_cube_index(i: int) -> int {
    4 * (i / 6) + spec_index_pattern(i % 6)
}

/// Generates the index array for `vertex_count` quad vertices: six indices
/// for every four vertices, following the repeating pattern
/// `[0, 1, 2, 2, 1, 3]` offset by `4 * quad_index`.
///
/// A vertex count that is not a multiple of four is a programmer error and is
/// excluded outright rather than silently corrected.
pub fn compute_cube_indices(vertex_count: usize) -> (r: Vec<u32>)
    requires
        vertex_count % 4 == 0,
        vertex_count <= MAX_INDEXED_VERTICES,
    ensures
        r@.len() == vertex_count as int / 4 * 6,
        forall|i: int| 0 <= i < r@.len() ==> r@[i] == spec_cube_index(i),
{
    let quads = vertex_count / 4;
    let mut indices: Vec<u32> = Vec::new();
    let mut q: usize = 0;
    while q < quads
        invariant
            q <= quads,
            quads == vertex_count as int / 4,
            vertex_count % 4 == 0,
            vertex_count <= MAX_INDEXED_VERTICES,
            indices@.len() == 6 * q,
            forall|i: int| 0 <= i < indices@.len() ==> indices@[i] == spec_cube_index(i),
        decreases quads - q,
    {
        let base: u32 = (4 * q) as u32;
        indices.push(base);
        indices.push(base + 1);
        indices.push(base + 2);
        indices.push(base + 2);
        indices.push(base + 1);
        indices.push(base + 3);
        proof {
            assert forall|j: int| #![trigger spec_cube_index(6 * q + j)]
                0 <= j < 6 implies (6 * q + j) / 6 == q && (6 * q + j) % 6 == j by {
                vstd::arithmetic::div_mod::lemma_div_multiples_vanish_fancy(
                    q as int,
                    j,
                    6,
                );
                vstd::arithmetic::div_mod::lemma_mod_multiples_vanish(q as int, j, 6);
                vstd::arithmetic::div_mod::lemma_small_mod(j as nat, 6);
            }
        }
        q = q + 1;
    }
    indices
}

} // verus!
