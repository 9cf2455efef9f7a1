//! Chunk streaming: the set of loaded chunks, kept centered on the camera.
//!
//! The manager owns the chunk list and a parallel set of loaded chunk
//! coordinates for fast membership tests. The two are kept in one-to-one
//! correspondence: every tracked coordinate has exactly one loaded chunk and
//! vice versa. GPU buffers for the chunks are owned outside this crate,
//! keyed by chunk coordinate, and follow this state.

use vstd::prelude::*;

use std::collections::HashSet;

use crate::chunk::CHUNK_DEPTH;
use crate::chunk::CHUNK_WIDTH;
use crate::chunk::Chunk;
use crate::chunk::ChunkPos;
use crate::chunk::MAX_CHUNK_COORD;
use crate::vec3::Vec3i;

verus! {

broadcast use vstd::std_specs::hash::group_hash_axioms;

/// The streaming radius, in chunks: chunks farther than this (in chunk-grid
/// distance) from the camera's chunk are evicted.
pub const RENDER_DISTANCE: i32 = 4;

/// Half the render distance, rounded down — the loading window enumerates
/// chunk coordinates within this offset of the camera's chunk, so the window
/// spans `2 * (RENDER_DISTANCE / 2) + 1` chunks per axis, deliberately
/// narrower than the eviction radius.
pub const HALF_RENDER_DISTANCE: i32 = 2;

/// Largest world-coordinate magnitude the streaming manager accepts from the
/// camera: keeps the camera's chunk, its loading window, and every generated
/// vertex within `i32`.
pub const MAX_WORLD_COORD: i32 = 2_000_000_000;

/// Largest chunk coordinate a loading-window center may have; the window
/// extends [`HALF_RENDER_DISTANCE`] beyond it, staying inside
/// [`MAX_CHUNK_COORD`].
pub const MAX_STREAM_CENTER: i32 = 125_000_000;

/// The set key of a chunk coordinate: both components packed into one `u64`.
pub open spec fn spec_pos_key(p: ChunkPos) -> u64 {
    ((p.x as u32 as u64) << 32) | (p.z as u32 as u64)
}

/// Packing both components of a chunk coordinate into one `u64` loses
/// nothing: equal keys mean equal coordinates.
pub proof fn lemma_pos_key_injective(a: ChunkPos, b: ChunkPos)
    requires
        spec_pos_key(a) == spec_pos_key(b),
    ensures
        a == b,
{
    let ax = a.x;
    let az = a.z;
    let bx = b.x;
    let bz = b.z;
    assert((((ax as u32 as u64) << 32) | (az as u32 as u64)) == (((bx as u32 as u64) << 32) | (
    bz as u32 as u64)) ==> ax == bx && az == bz) by (bit_vector);
}

/// The chunk containing a world position: floor division of its planar
/// components by the chunk footprint.
pub open spec fn spec_player_chunk(p: Vec3i) -> ChunkPos {
    ChunkPos {
        x: (p.x as int / CHUNK_WIDTH as int) as i32,
        z: (p.z as int / CHUNK_DEPTH as int) as i32,
    }
}

/// The eviction test: squared planar chunk-grid distance beyond
/// `RENDER_DISTANCE` squared. Chunk-grid deltas are compared directly, not
/// scaled to world units.
pub open spec fn spec_far(p: ChunkPos, c: ChunkPos) -> bool {
    (p.x - c.x) * (p.x - c.x) + (p.z - c.z) * (p.z - c.z) > RENDER_DISTANCE * RENDER_DISTANCE
}

/// True when `p` lies in the loading window around center `c`: the square of
/// chunk coordinates within [`HALF_RENDER_DISTANCE`] of `c` on both axes,
/// bounds inclusive.
pub open spec fn spec_window_contains(c: ChunkPos, p: ChunkPos) -> bool {
    &&& c.x - HALF_RENDER_DISTANCE <= p.x <= c.x + HALF_RENDER_DISTANCE
    &&& c.z - HALF_RENDER_DISTANCE <= p.z <= c.z + HALF_RENDER_DISTANCE
}

/// True when a loading-window center is close enough to the origin for its
/// whole window to be generated.
pub open spec fn spec_pos_in_stream_range(p: ChunkPos) -> bool {
    &&& -MAX_STREAM_CENTER <= p.x <= MAX_STREAM_CENTER
    &&& -MAX_STREAM_CENTER <= p.z <= MAX_STREAM_CENTER
}

/// True when some chunk of `s` is loaded and has set key `k`.
pub open spec fn has_loaded_key(s: Seq<Chunk>, k: u64) -> bool {
    exists|i: int| 0 <= i < s.len() && (#[trigger] s[i]).loaded && spec_pos_key(s[i].pos) == k
}

/// The coordinates of the loaded chunks of `s`.
pub open spec fn spec_loaded_positions(s: Seq<Chunk>) -> Set<ChunkPos> {
    Set::new(|p: ChunkPos| exists|i: int| 0 <= i < s.len() && (#[trigger] s[i]).loaded && s[i].pos == p)
}

/// The streaming invariant, as a law: in any well-formed manager state the
/// coordinate set and the chunk list are in one-to-one correspondence — a
/// coordinate is in the set exactly when some chunk carries it, every chunk
/// is loaded, and no two chunks share a coordinate.
pub proof fn lemma_streaming_sync(w: WorldRenderer)
    requires
        w.wf(),
    ensures
        forall|p: ChunkPos| #![trigger w.positions().contains(p)]
            w.positions().contains(p) <==> w.key_set().contains(spec_pos_key(p)),
        forall|i: int, j: int|
            0 <= i < j < w.chunk_seq().len() ==> (#[trigger] w.chunk_seq()[i]).pos != (#[trigger]
            w.chunk_seq()[j]).pos,
        forall|i: int| 0 <= i < w.chunk_seq().len() ==> (#[trigger] w.chunk_seq()[i]).loaded,
{
    assert forall|p: ChunkPos| #![trigger w.positions().contains(p)]
        w.positions().contains(p) <==> w.key_set().contains(spec_pos_key(p)) by {
        if w.positions().contains(p) {
            let j = choose|j: int|
                0 <= j < w.chunk_seq().len() && (#[trigger] w.chunk_seq()[j]).pos == p;
            assert((#[trigger] w.chunk_seq()[j]).loaded && spec_pos_key(w.chunk_seq()[j].pos)
                == spec_pos_key(p));
            assert(has_loaded_key(w.chunk_seq(), spec_pos_key(p)));
        }
        if w.key_set().contains(spec_pos_key(p)) {
            let j = choose|j: int|
                0 <= j < w.chunk_seq().len() && (#[trigger] w.chunk_seq()[j]).loaded
                    && spec_pos_key(w.chunk_seq()[j].pos) == spec_pos_key(p);
            lemma_pos_key_injective(w.chunk_seq()[j].pos, p);
            assert(w.positions().contains(p));
        }
    }
}

/// The exec computation of [`spec_pos_key`].
fn pos_key(p: ChunkPos) -> (r: u64)
    ensures
        r == spec_pos_key(p),
{
    ((p.x as u32 as u64) << 32) | (p.z as u32 as u64)
}

/// The streaming manager: the loaded chunks and their coordinate set.
pub struct WorldRenderer {
    chunks: Vec<Chunk>,
    chunks_pos: HashSet<u64>,
    /// Whether the renderer outside this crate should bind its wireframe
    /// pipeline instead of the filled one when drawing these chunks.
    pub wireframe: bool,
}

impl WorldRenderer {
    /// The tracked chunk list, in insertion order.
    pub closed spec fn chunk_seq(self) -> Seq<Chunk> {
        self.chunks@
    }

    /// The set of keys held by the coordinate set.
    pub closed spec fn key_set(self) -> Set<u64> {
        self.chunks_pos@
    }

    /// Whether the wireframe pipeline is selected.
    pub closed spec fn spec_wireframe(self) -> bool {
        self.wireframe
    }

    /// The set of chunk coordinates present in the chunk list.
    pub open spec fn positions(self) -> Set<ChunkPos> {
        Set::new(
            |p: ChunkPos|
                exists|i: int|
                    0 <= i < self.chunk_seq().len() && (#[trigger] self.chunk_seq()[i]).pos == p,
        )
    }

    /// The invariant that holds in every state, eviction sweeps included:
    /// every chunk is exactly its coordinate's generated data, coordinates
    /// are distinct, and the coordinate set holds exactly the keys of the
    /// loaded chunks.
    pub open spec fn wf_core(self) -> bool {
        &&& forall|i: int|
            0 <= i < self.chunk_seq().len() ==> (#[trigger] self.chunk_seq()[i]).wf()
        &&& forall|i: int, j: int|
            0 <= i < j < self.chunk_seq().len() ==> (#[trigger] self.chunk_seq()[i]).pos != (
            #[trigger] self.chunk_seq()[j]).pos
        &&& forall|k: u64|
            #[trigger] self.key_set().contains(k) <==> has_loaded_key(self.chunk_seq(), k)
    }

    /// The resting-state invariant: [`WorldRenderer::wf_core`] and every
    /// tracked chunk loaded, so the coordinate set and the chunk list are in
    /// one-to-one correspondence.
    pub open spec fn wf(self) -> bool {
        &&& self.wf_core()
        &&& forall|i: int|
            0 <= i < self.chunk_seq().len() ==> (#[trigger] self.chunk_seq()[i]).loaded
    }

    /// Builds the manager and performs the initial load around the origin
    /// chunk.
    pub fn new() -> (r: WorldRenderer)
        ensures
            r.wf(),
            r.positions() == Set::new(
                |p: ChunkPos| spec_window_contains(ChunkPos { x: 0, z: 0 }, p),
            ),
            !r.spec_wireframe(),
    {
        let mut world = WorldRenderer {
            chunks: Vec::new(),
            chunks_pos: HashSet::new(),
            wireframe: false,
        };
        proof {
            assert(!has_loaded_key(world.chunk_seq(), 0));
            assert(world.positions() =~= Set::<ChunkPos>::empty());
        }
        world.load_initial_chunks();
        proof {
            assert(world.positions() =~= Set::new(
                |p: ChunkPos| spec_window_contains(ChunkPos { x: 0, z: 0 }, p),
            ));
        }
        world
    }

    /// The number of tracked chunks.
    pub fn chunk_count(&self) -> (r: usize)
        ensures
            r == self.chunk_seq().len(),
    {
        self.chunks.len()
    }

    /// Read access to the tracked chunk list, for draw iteration and buffer
    /// upload outside this crate.
    pub fn chunks(&self) -> (r: &Vec<Chunk>)
        ensures
            r@ == self.chunk_seq(),
    {
        &self.chunks
    }

    /// Membership test on the loaded-coordinate set.
    pub fn contains_pos(&self, pos: ChunkPos) -> (r: bool)
        requires
            self.wf(),
        ensures
            r == self.positions().contains(pos),
    {
        let k = pos_key(pos);
        let r = self.chunks_pos.contains(&k);
        proof {
            if self.key_set().contains(k) {
                let j = choose|j: int|
                    0 <= j < self.chunk_seq().len() && (#[trigger] self.chunk_seq()[j]).loaded
                        && spec_pos_key(self.chunk_seq()[j].pos) == k;
                lemma_pos_key_injective(self.chunk_seq()[j].pos, pos);
                assert(self.positions().contains(pos));
            }
            if self.positions().contains(pos) {
                let j = choose|j: int|
                    0 <= j < self.chunk_seq().len() && (#[trigger] self.chunk_seq()[j]).pos
                        == pos;
                assert((#[trigger] self.chunk_seq()[j]).loaded);
                assert(has_loaded_key(self.chunk_seq(), k));
            }
        }
        r
    }

    /// Enumerates the loading window around `player_pos`, generates every
    /// window coordinate not already tracked, and merges the new chunks and
    /// coordinates into the tracked state.
    pub fn load_chunks(&mut self, player_pos: ChunkPos)
        requires
            old(self).wf(),
            spec_pos_in_stream_range(player_pos),
        ensures
            final(self).wf(),
            final(self).positions() == old(self).positions().union(
                Set::new(|p: ChunkPos| spec_window_contains(player_pos, p)),
            ),
            final(self).spec_wireframe() == old(self).spec_wireframe(),
    {
        let start_x = player_pos.x - HALF_RENDER_DISTANCE;
        let end_x = player_pos.x + HALF_RENDER_DISTANCE;
        let start_z = player_pos.z - HALF_RENDER_DISTANCE;
        let end_z = player_pos.z + HALF_RENDER_DISTANCE;

        let mut new_positions: Vec<ChunkPos> = Vec::new();
        let mut z = start_z;
        while z <= end_z
            invariant
                self == old(self),
                old(self).wf(),
                start_x == player_pos.x - HALF_RENDER_DISTANCE,
                end_x == player_pos.x + HALF_RENDER_DISTANCE,
                start_z == player_pos.z - HALF_RENDER_DISTANCE,
                end_z == player_pos.z + HALF_RENDER_DISTANCE,
                spec_pos_in_stream_range(player_pos),
                start_z <= z <= end_z + 1,
                forall|q: ChunkPos| #![trigger new_positions@.contains(q)]
                    new_positions@.contains(q) <==> (spec_window_contains(player_pos, q)
                        && !old(self).positions().contains(q) && q.z < z),
                forall|a: int, b: int|
                    0 <= a < b < new_positions@.len() ==> new_positions@[a] != new_positions@[b],
            decreases end_z + 1 - z,
        {
            let mut x = start_x;
            while x <= end_x
                invariant
                    self == old(self),
                    old(self).wf(),
                    start_x == player_pos.x - HALF_RENDER_DISTANCE,
                    end_x == player_pos.x + HALF_RENDER_DISTANCE,
                    start_z == player_pos.z - HALF_RENDER_DISTANCE,
                    end_z == player_pos.z + HALF_RENDER_DISTANCE,
                    spec_pos_in_stream_range(player_pos),
                    start_z <= z <= end_z,
                    start_x <= x <= end_x + 1,
                    forall|q: ChunkPos| #![trigger new_positions@.contains(q)]
                        new_positions@.contains(q) <==> (spec_window_contains(player_pos, q)
                            && !old(self).positions().contains(q) && (q.z < z || (q.z == z && q.x
                            < x))),
                    forall|a: int, b: int|
                        0 <= a < b < new_positions@.len() ==> new_positions@[a]
                            != new_positions@[b],
                decreases end_x + 1 - x,
            {
                let p = ChunkPos::new(x, z);
                let ghost before = new_positions@;
                if !self.contains_pos(p) {
                    new_positions.push(p);
                    proof {
                        assert forall|q: ChunkPos| new_positions@.contains(q) implies (
                        spec_window_contains(player_pos, q) && !old(self).positions().contains(q)
                            && (q.z < z || (q.z == z && q.x < x + 1))) by {
                            if q == p {
                            } else {
                                assert(before.contains(q));
                            }
                        }
                        assert forall|q: ChunkPos|
                            (spec_window_contains(player_pos, q) && !old(
                                self,
                            ).positions().contains(q) && (q.z < z || (q.z == z && q.x < x
                                + 1))) implies new_positions@.contains(q) by {
                            if q == p {
                                assert(new_positions@[new_positions@.len() - 1] == p);
                            } else {
                                assert(before.contains(q));
                                let a = choose|a: int|
                                    0 <= a < before.len() && before[a] == q;
                                assert(new_positions@[a] == q);
                            }
                        }
                        assert forall|a: int| 0 <= a < before.len() implies before[a] != p by {
                            assert(before.contains(before[a]));
                        }
                        assert forall|a: int, b: int|
                            0 <= a < b < new_positions@.len() implies new_positions@[a]
                            != new_positions@[b] by {
                            if b == new_positions@.len() - 1 {
                                assert(new_positions@[a] == before[a]);
                            }
                        }
                    }
                } else {
                    proof {
                        assert forall|q: ChunkPos| new_positions@.contains(q) implies (
                        spec_window_contains(player_pos, q) && !old(self).positions().contains(q)
                            && (q.z < z || (q.z == z && q.x < x + 1))) by {}
                        assert forall|q: ChunkPos|
                            (spec_window_contains(player_pos, q) && !old(
                                self,
                            ).positions().contains(q) && (q.z < z || (q.z == z && q.x < x
                                + 1))) implies new_positions@.contains(q) by {
                            if q != p {
                            }
                        }
                    }
                }
                x = x + 1;
            }
            z = z + 1;
        }

        let ghost pre = *self;
        proof {
            assert forall|q: ChunkPos| #![trigger new_positions@.contains(q)]
                new_positions@.contains(q) <==> (spec_window_contains(player_pos, q)
                    && !pre.positions().contains(q)) by {
                if spec_window_contains(player_pos, q) {
                    assert(q.z <= end_z);
                }
                if new_positions@.contains(q) {
                    assert(spec_window_contains(player_pos, q));
                }
            }
        }
        let mut i: usize = 0;
        while i < new_positions.len()
            invariant
                pre.wf(),
                pre.spec_wireframe() == self.spec_wireframe(),
                spec_pos_in_stream_range(player_pos),
                i <= new_positions@.len(),
                forall|q: ChunkPos| #![trigger new_positions@.contains(q)]
                    new_positions@.contains(q) <==> (spec_window_contains(player_pos, q)
                        && !pre.positions().contains(q)),
                forall|a: int, b: int|
                    0 <= a < b < new_positions@.len() ==> new_positions@[a] != new_positions@[b],
                self.chunk_seq().len() == pre.chunk_seq().len() + i,
                forall|j: int|
                    0 <= j < pre.chunk_seq().len() ==> self.chunk_seq()[j] == pre.chunk_seq()[j],
                forall|j: int|
                    pre.chunk_seq().len() <= j < self.chunk_seq().len() ==> (#[trigger]
                    self.chunk_seq()[j]).wf() && self.chunk_seq()[j].loaded
                        && self.chunk_seq()[j].pos == new_positions@[j - pre.chunk_seq().len()],
                forall|a: int, b: int|
                    0 <= a < b < self.chunk_seq().len() ==> (#[trigger] self.chunk_seq()[a]).pos
                        != (#[trigger] self.chunk_seq()[b]).pos,
                forall|k: u64|
                    #[trigger] self.key_set().contains(k) <==> has_loaded_key(
                        self.chunk_seq(),
                        k,
                    ),
            decreases new_positions@.len() - i,
        {
            let p = new_positions[i];
            proof {
                assert(new_positions@.contains(p));
                assert(spec_window_contains(player_pos, p));
                assert(crate::chunk::chunk_pos_in_gen_range(p));
            }
            let chunk = Chunk::new(p);
            let ghost before_chunks = self.chunk_seq();
            let ghost before_keys = self.key_set();
            self.chunks.push(chunk);
            let k = pos_key(p);
            self.chunks_pos.insert(k);
            proof {
                let s = self.chunk_seq();
                let n = s.len() - 1;
                // distinctness: the new chunk's coordinate is absent earlier
                assert(s == before_chunks.push(chunk));
                assert(s[n].pos == new_positions@[i as int]);
                assert(new_positions@.contains(new_positions@[i as int]));
                assert forall|a: int, b: int| 0 <= a < b < s.len() implies (#[trigger] s[a]).pos
                    != (#[trigger] s[b]).pos by {
                    if b == n {
                        assert(s[a] == before_chunks[a]);
                        if a < pre.chunk_seq().len() {
                            assert(s[a] == pre.chunk_seq()[a]);
                            assert((#[trigger] pre.chunk_seq()[a]).pos == s[a].pos);
                            assert(pre.positions().contains(s[a].pos));
                            assert(!pre.positions().contains(s[n].pos));
                        } else {
                            assert(s[a].pos == new_positions@[a - pre.chunk_seq().len()]);
                            assert(a - pre.chunk_seq().len() < i);
                        }
                    }
                }
                // the key set tracks the loaded chunks
                assert forall|kk: u64| #[trigger]
                    self.key_set().contains(kk) <==> has_loaded_key(s, kk) by {
                    if kk == spec_pos_key(p) {
                        assert((#[trigger] s[n]).loaded && spec_pos_key(s[n].pos) == kk);
                        assert(has_loaded_key(s, kk));
                    } else {
                        if before_keys.contains(kk) {
                            let j = choose|j: int|
                                0 <= j < before_chunks.len() && (#[trigger]
                                before_chunks[j]).loaded && spec_pos_key(before_chunks[j].pos)
                                    == kk;
                            assert((#[trigger] s[j]).loaded && spec_pos_key(s[j].pos) == kk);
                        }
                        if has_loaded_key(s, kk) {
                            let j = choose|j: int|
                                0 <= j < s.len() && (#[trigger] s[j]).loaded && spec_pos_key(
                                    s[j].pos,
                                ) == kk;
                            assert(j != n);
                            assert((#[trigger] before_chunks[j]).loaded && spec_pos_key(
                                before_chunks[j].pos,
                            ) == kk);
                        }
                    }
                }
            }
            i = i + 1;
        }
        proof {
            assert forall|q: ChunkPos|
                self.positions().contains(q) <==> (pre.positions().contains(q)
                    || spec_window_contains(player_pos, q)) by {
                if self.positions().contains(q) {
                    let j = choose|j: int|
                        0 <= j < self.chunk_seq().len() && (#[trigger] self.chunk_seq()[j]).pos
                            == q;
                    if j < pre.chunk_seq().len() {
                        assert(self.chunk_seq()[j] == pre.chunk_seq()[j]);
                        assert((#[trigger] pre.chunk_seq()[j]).pos == q);
                        assert(pre.positions().contains(q));
                    } else {
                        assert(self.chunk_seq()[j].pos == new_positions@[j - pre.chunk_seq().len()]);
                        assert(new_positions@.contains(q));
                    }
                }
                if pre.positions().contains(q) {
                    let j = choose|j: int|
                        0 <= j < pre.chunk_seq().len() && (#[trigger] pre.chunk_seq()[j]).pos
                            == q;
                    assert(self.chunk_seq()[j] == pre.chunk_seq()[j]);
                    assert((#[trigger] self.chunk_seq()[j]).pos == q);
                    assert(self.positions().contains(q));
                }
                if spec_window_contains(player_pos, q) && !pre.positions().contains(q) {
                    assert(new_positions@.contains(q));
                    let a = choose|a: int|
                        0 <= a < new_positions@.len() && new_positions@[a] == q;
                    assert(self.chunk_seq()[pre.chunk_seq().len() + a].pos == q);
                    assert(self.positions().contains(q));
                }
            }
            assert(self.positions() =~= pre.positions().union(
                Set::new(|p: ChunkPos| spec_window_contains(player_pos, p)),
            ));
            assert forall|j: int| 0 <= j < self.chunk_seq().len() implies (#[trigger]
                self.chunk_seq()[j]).wf() && self.chunk_seq()[j].loaded by {
                if j < pre.chunk_seq().len() {
                    assert(self.chunk_seq()[j] == pre.chunk_seq()[j]);
                    assert((#[trigger] pre.chunk_seq()[j]).wf() && pre.chunk_seq()[j].loaded);
                }
            }
        }
    }

    /// One streaming update for a camera standing at `player_pos`.
    ///
    /// Every chunk farther than [`RENDER_DISTANCE`] (in squared chunk-grid
    /// distance) from the camera's chunk has its `loaded` flag cleared and
    /// its coordinate dropped from the set. If anything went out of range,
    /// the eviction sweep runs and the loading window around the camera's
    /// chunk is then filled in; otherwise the state is left untouched.
    /// Eviction completes before any new chunk is generated.
    pub fn on_update(&mut self, player_pos: Vec3i)
        requires
            old(self).wf(),
            -MAX_WORLD_COORD <= player_pos.x <= MAX_WORLD_COORD,
            -MAX_WORLD_COORD <= player_pos.z <= MAX_WORLD_COORD,
        ensures
            final(self).wf(),
            final(self).spec_wireframe() == old(self).spec_wireframe(),
            ({
                let c = spec_player_chunk(player_pos);
                if exists|i: int|
                    0 <= i < old(self).chunk_seq().len() && spec_far(
                        (#[trigger] old(self).chunk_seq()[i]).pos,
                        c,
                    ) {
                    final(self).positions() == Set::new(
                        |p: ChunkPos|
                            (old(self).positions().contains(p) && !spec_far(p, c))
                                || spec_window_contains(c, p),
                    )
                } else {
                    final(self).chunk_seq() == old(self).chunk_seq() && final(self).key_set()
                        == old(self).key_set()
                }
            }),
    {
        let player_chunk = ChunkPos::from_world(player_pos);
        proof {
            assert(player_chunk == spec_player_chunk(player_pos));
            assert(player_pos.x as int / 16 <= MAX_STREAM_CENTER && -MAX_STREAM_CENTER
                <= player_pos.x as int / 16) by {
                vstd::arithmetic::div_mod::lemma_div_is_ordered(
                    player_pos.x as int,
                    MAX_WORLD_COORD as int,
                    16,
                );
                vstd::arithmetic::div_mod::lemma_div_is_ordered(
                    -MAX_WORLD_COORD as int,
                    player_pos.x as int,
                    16,
                );
            }
            assert(player_pos.z as int / 16 <= MAX_STREAM_CENTER && -MAX_STREAM_CENTER
                <= player_pos.z as int / 16) by {
                vstd::arithmetic::div_mod::lemma_div_is_ordered(
                    player_pos.z as int,
                    MAX_WORLD_COORD as int,
                    16,
                );
                vstd::arithmetic::div_mod::lemma_div_is_ordered(
                    -MAX_WORLD_COORD as int,
                    player_pos.z as int,
                    16,
                );
            }
            assert(spec_pos_in_stream_range(player_chunk));
        }
        let mut dirty = false;
        let mut i: usize = 0;
        while i < self.chunks.len()
            invariant
                old(self).wf(),
                player_chunk == spec_player_chunk(player_pos),
                spec_pos_in_stream_range(player_chunk),
                i <= self.chunk_seq().len(),
                self.chunk_seq().len() == old(self).chunk_seq().len(),
                self.spec_wireframe() == old(self).spec_wireframe(),
                forall|j: int|
                    0 <= j < self.chunk_seq().len() ==> (#[trigger] self.chunk_seq()[j]).wf()
                        && self.chunk_seq()[j].pos == old(self).chunk_seq()[j].pos,
                forall|j: int|
                    0 <= j < i ==> ((#[trigger] self.chunk_seq()[j]).loaded <==> !spec_far(
                        self.chunk_seq()[j].pos,
                        player_chunk,
                    )),
                forall|j: int|
                    i <= j < self.chunk_seq().len() ==> (#[trigger] self.chunk_seq()[j]).loaded,
                dirty == (exists|j: int|
                    0 <= j < i && spec_far(
                        (#[trigger] old(self).chunk_seq()[j]).pos,
                        player_chunk,
                    )),
                forall|k: u64|
                    #[trigger] self.key_set().contains(k) <==> has_loaded_key(
                        self.chunk_seq(),
                        k,
                    ),
                !dirty ==> self.chunk_seq() == old(self).chunk_seq() && self.key_set() == old(
                    self,
                ).key_set(),
            decreases self.chunk_seq().len() - i,
        {
            let cpos = self.chunks[i].pos;
            let dx = cpos.x as i64 - player_chunk.x as i64;
            let dz = cpos.z as i64 - player_chunk.z as i64;
            proof {
                assert(crate::chunk::chunk_pos_in_gen_range(cpos));
                assert(dx * dx + dz * dz <= 0x1000_0000_0000_0000) by (nonlinear_arith)
                    requires
                        -0x1000_0000 <= dx <= 0x1000_0000,
                        -0x1000_0000 <= dz <= 0x1000_0000,
                ;
                assert(0 <= dx * dx && 0 <= dz * dz) by (nonlinear_arith);
            }
            let sq = dx * dx + dz * dz;
            let far = sq > (RENDER_DISTANCE as i64) * (RENDER_DISTANCE as i64);
            proof {
                assert(far == spec_far(cpos, player_chunk));
            }
            if far {
                dirty = true;
                let k = pos_key(cpos);
                let ghost pre = *self;
                self.chunks[i].loaded = false;
                self.chunks_pos.remove(&k);
                proof {
                    let s = self.chunk_seq();
                    assert(s == pre.chunk_seq().update(i as int, s[i as int]));
                    assert(s[i as int].pos == cpos && !s[i as int].loaded);
                    assert forall|kk: u64| #[trigger]
                        self.key_set().contains(kk) <==> has_loaded_key(s, kk) by {
                        if kk == k {
                            assert(!self.key_set().contains(kk));
                            if has_loaded_key(s, kk) {
                                let j = choose|j: int|
                                    0 <= j < s.len() && (#[trigger] s[j]).loaded && spec_pos_key(
                                        s[j].pos,
                                    ) == kk;
                                assert(j != i);
                                lemma_pos_key_injective(s[j].pos, cpos);
                                assert(s[j].pos == pre.chunk_seq()[j].pos);
                                assert(false);
                            }
                        } else {
                            assert(self.key_set() =~= pre.key_set().remove(k));
                            if pre.key_set().contains(kk) {
                                let j = choose|j: int|
                                    0 <= j < pre.chunk_seq().len() && (#[trigger]
                                    pre.chunk_seq()[j]).loaded && spec_pos_key(
                                        pre.chunk_seq()[j].pos,
                                    ) == kk;
                                assert(j != i);
                                assert((#[trigger] s[j]).loaded && spec_pos_key(s[j].pos) == kk);
                            }
                            if has_loaded_key(s, kk) {
                                let j = choose|j: int|
                                    0 <= j < s.len() && (#[trigger] s[j]).loaded && spec_pos_key(
                                        s[j].pos,
                                    ) == kk;
                                assert(j != i);
                                assert((#[trigger] pre.chunk_seq()[j]).loaded && spec_pos_key(
                                    pre.chunk_seq()[j].pos,
                                ) == kk);
                            }
                        }
                    }
                    assert(dirty == (exists|j: int|
                        0 <= j < i + 1 && spec_far(
                            (#[trigger] old(self).chunk_seq()[j]).pos,
                            player_chunk,
                        )));
                }
            } else {
                proof {
                    assert(!spec_far(old(self).chunk_seq()[i as int].pos, player_chunk));
                    assert(dirty == (exists|j: int|
                        0 <= j < i + 1 && spec_far(
                            (#[trigger] old(self).chunk_seq()[j]).pos,
                            player_chunk,
                        )));
                }
            }
            i = i + 1;
        }
        if dirty {
            let ghost marked = *self;
            self.unload_chunks();
            let ghost mid = *self;
            self.load_chunks(player_chunk);
            proof {
                let c = spec_player_chunk(player_pos);
                assert forall|p: ChunkPos|
                    mid.positions().contains(p) <==> (old(self).positions().contains(p)
                        && !spec_far(p, c)) by {
                    if mid.positions().contains(p) {
                        assert(spec_loaded_positions(marked.chunk_seq()).contains(p));
                        let j = choose|j: int|
                            0 <= j < marked.chunk_seq().len() && (#[trigger]
                            marked.chunk_seq()[j]).loaded && marked.chunk_seq()[j].pos == p;
                        assert((#[trigger] old(self).chunk_seq()[j]).pos == p);
                        assert(old(self).positions().contains(p));
                    }
                    if old(self).positions().contains(p) && !spec_far(p, c) {
                        let j = choose|j: int|
                            0 <= j < old(self).chunk_seq().len() && (#[trigger]
                            old(self).chunk_seq()[j]).pos == p;
                        assert((#[trigger] marked.chunk_seq()[j]).loaded
                            && marked.chunk_seq()[j].pos == p);
                        assert(spec_loaded_positions(marked.chunk_seq()).contains(p));
                    }
                }
                assert(self.positions() =~= Set::new(
                    |p: ChunkPos|
                        (old(self).positions().contains(p) && !spec_far(p, c))
                            || spec_window_contains(c, p),
                ));
            }
        } else {
            proof {
                assert(!(exists|j: int|
                    0 <= j < old(self).chunk_seq().len() && spec_far(
                        (#[trigger] old(self).chunk_seq()[j]).pos,
                        spec_player_chunk(player_pos),
                    )));
            }
        }
    }

    /// The eviction sweep: drops every chunk whose `loaded` flag has been
    /// cleared, releasing it for the GPU-resource owner outside this crate,
    /// and keeps the loaded chunks in their current order.
    pub fn unload_chunks(&mut self)
        requires
            old(self).wf_core(),
        ensures
            final(self).wf(),
            final(self).positions() == spec_loaded_positions(old(self).chunk_seq()),
            final(self).key_set() == old(self).key_set(),
            final(self).spec_wireframe() == old(self).spec_wireframe(),
    {
        let ghost orig = old(self).chunk_seq();
        let mut kept: Vec<Chunk> = Vec::new();
        while self.chunks.len() > 0
            invariant
                old(self).wf_core(),
                orig == old(self).chunk_seq(),
                self.chunks@.len() <= orig.len(),
                self.chunks@ == orig.subrange(
                    orig.len() - self.chunks@.len(),
                    orig.len() as int,
                ),
                self.chunks_pos@ == old(self).key_set(),
                self.spec_wireframe() == old(self).spec_wireframe(),
                forall|ch: Chunk| #![trigger kept@.contains(ch)]
                    kept@.contains(ch) <==> (exists|i: int|
                        0 <= i < orig.len() - self.chunks@.len() && (#[trigger] orig[i]) == ch
                            && ch.loaded),
                forall|a: int, b: int|
                    0 <= a < b < kept@.len() ==> (#[trigger] kept@[a]).pos != (#[trigger]
                    kept@[b]).pos,
            decreases self.chunks@.len(),
        {
            let ghost processed = orig.len() - self.chunks@.len();
            let ghost pre_chunks = self.chunks@;
            let ghost pre_kept = kept@;
            proof {
                assert(self.chunks@[0] == orig.subrange(processed, orig.len() as int)[0]);
                assert(self.chunks@[0] == orig[processed]);
            }
            let c = self.chunks.remove(0);
            proof {
                assert(self.chunks@ == pre_chunks.remove(0));
                assert forall|idx: int| 0 <= idx < self.chunks@.len() implies self.chunks@[idx]
                    == orig[processed + 1 + idx] by {
                    assert(pre_chunks.remove(0)[idx] == pre_chunks[idx + 1]);
                    assert(pre_chunks[idx + 1] == orig.subrange(
                        processed,
                        orig.len() as int,
                    )[idx + 1]);
                }
                assert(self.chunks@ =~= orig.subrange(processed + 1, orig.len() as int));
            }
            if c.loaded {
                kept.push(c);
                proof {
                    assert forall|ch: Chunk| #![trigger kept@.contains(ch)]
                        kept@.contains(ch) <==> (exists|i: int|
                            0 <= i < processed + 1 && (#[trigger] orig[i]) == ch
                                && ch.loaded) by {
                        if ch == c {
                            assert(kept@[kept@.len() - 1] == c);
                            assert((#[trigger] orig[processed]) == c && c.loaded);
                        } else {
                            if kept@.contains(ch) {
                                let a = choose|a: int|
                                    0 <= a < kept@.len() && kept@[a] == ch;
                                assert(a < pre_kept.len());
                                assert(pre_kept[a] == ch);
                                assert(pre_kept.contains(ch));
                            }
                            if exists|i: int|
                                0 <= i < processed + 1 && (#[trigger] orig[i]) == ch
                                    && ch.loaded {
                                let i = choose|i: int|
                                    0 <= i < processed + 1 && (#[trigger] orig[i]) == ch
                                        && ch.loaded;
                                assert(i != processed);
                                assert(pre_kept.contains(ch));
                                let a = choose|a: int|
                                    0 <= a < pre_kept.len() && pre_kept[a] == ch;
                                assert(kept@[a] == ch);
                            }
                        }
                    }
                    assert forall|a: int, b: int|
                        0 <= a < b < kept@.len() implies (#[trigger] kept@[a]).pos != (#[trigger]
                    kept@[b]).pos by {
                        if b == kept@.len() - 1 {
                            assert(pre_kept[a] == kept@[a]);
                            assert(pre_kept.contains(kept@[a]));
                            let i = choose|i: int|
                                0 <= i < processed && (#[trigger] orig[i]) == kept@[a]
                                    && kept@[a].loaded;
                            assert(orig[i].pos != orig[processed].pos);
                        }
                    }
                }
            } else {
                let k = pos_key(c.pos);
                proof {
                    if old(self).key_set().contains(k) {
                        let i = choose|i: int|
                            0 <= i < orig.len() && (#[trigger] orig[i]).loaded && spec_pos_key(
                                orig[i].pos,
                            ) == k;
                        assert(i != processed);
                        lemma_pos_key_injective(orig[i].pos, c.pos);
                        assert(false);
                    }
                }
                self.chunks_pos.remove(&k);
                proof {
                    assert(self.chunks_pos@ =~= old(self).key_set());
                    assert forall|ch: Chunk| #![trigger kept@.contains(ch)]
                        kept@.contains(ch) <==> (exists|i: int|
                            0 <= i < processed + 1 && (#[trigger] orig[i]) == ch
                                && ch.loaded) by {
                        if exists|i: int|
                            0 <= i < processed + 1 && (#[trigger] orig[i]) == ch && ch.loaded {
                            let i = choose|i: int|
                                0 <= i < processed + 1 && (#[trigger] orig[i]) == ch
                                    && ch.loaded;
                            assert(i != processed);
                        }
                    }
                }
            }
        }
        self.chunks = kept;
        proof {
            let s = self.chunk_seq();
            assert forall|j: int| 0 <= j < s.len() implies (#[trigger] s[j]).wf()
                && s[j].loaded by {
                assert(s.contains(s[j]));
                let i = choose|i: int|
                    0 <= i < orig.len() && (#[trigger] orig[i]) == s[j] && s[j].loaded;
                assert(orig[i].wf());
            }
            assert forall|k: u64| #[trigger]
                self.key_set().contains(k) <==> has_loaded_key(s, k) by {
                if self.key_set().contains(k) {
                    let i = choose|i: int|
                        0 <= i < orig.len() && (#[trigger] orig[i]).loaded && spec_pos_key(
                            orig[i].pos,
                        ) == k;
                    assert(s.contains(orig[i]));
                    let j = choose|j: int| 0 <= j < s.len() && s[j] == orig[i];
                    assert((#[trigger] s[j]).loaded && spec_pos_key(s[j].pos) == k);
                }
                if has_loaded_key(s, k) {
                    let j = choose|j: int|
                        0 <= j < s.len() && (#[trigger] s[j]).loaded && spec_pos_key(s[j].pos)
                            == k;
                    assert(s.contains(s[j]));
                    let i = choose|i: int|
                        0 <= i < orig.len() && (#[trigger] orig[i]) == s[j] && s[j].loaded;
                    assert(has_loaded_key(orig, k));
                }
            }
            assert forall|p: ChunkPos|
                self.positions().contains(p) <==> spec_loaded_positions(orig).contains(p) by {
                if self.positions().contains(p) {
                    let j = choose|j: int|
                        0 <= j < s.len() && (#[trigger] s[j]).pos == p;
                    assert(s.contains(s[j]));
                    let i = choose|i: int|
                        0 <= i < orig.len() && (#[trigger] orig[i]) == s[j] && s[j].loaded;
                    assert((#[trigger] orig[i]).loaded && orig[i].pos == p);
                }
                if spec_loaded_positions(orig).contains(p) {
                    let i = choose|i: int|
                        0 <= i < orig.len() && (#[trigger] orig[i]).loaded && orig[i].pos == p;
                    assert(s.contains(orig[i]));
                    let j = choose|j: int| 0 <= j < s.len() && s[j] == orig[i];
                    assert((#[trigger] s[j]).pos == p);
                }
            }
            assert(self.positions() =~= spec_loaded_positions(orig));
        }
    }

    /// The initial load at startup: the same window enumeration as
    /// [`WorldRenderer::load_chunks`], centered on the origin chunk, with no
    /// eviction beforehand.
    pub fn load_initial_chunks(&mut self)
        requires
            old(self).wf(),
        ensures
            final(self).wf(),
            final(self).positions() == old(self).positions().union(
                Set::new(|p: ChunkPos| spec_window_contains(ChunkPos { x: 0, z: 0 }, p)),
            ),
            final(self).spec_wireframe() == old(self).spec_wireframe(),
    {
        self.load_chunks(ChunkPos::new(0, 0));
    }
}

} // verus!
