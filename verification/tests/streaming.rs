use std::collections::HashSet;

use voxgen::chunk::ChunkPos;
use voxgen::vec3::Vec3i;
use voxgen::world::RENDER_DISTANCE;
use voxgen::world::WorldRenderer;

/// The streaming one-to-one correspondence: every tracked chunk is loaded,
/// chunk coordinates are pairwise distinct, and the membership test agrees
/// with the chunk list.
fn check_sync(world: &WorldRenderer) {
    let mut seen: HashSet<(i32, i32)> = HashSet::new();
    for chunk in world.chunks() {
        assert!(chunk.loaded);
        assert!(seen.insert((chunk.pos.x, chunk.pos.z)), "duplicate chunk coordinate");
        assert!(world.contains_pos(chunk.pos));
    }
    assert_eq!(seen.len(), world.chunk_count());
}

fn far(p: ChunkPos, c: ChunkPos) -> bool {
    let dx = (p.x - c.x) as i64;
    let dz = (p.z - c.z) as i64;
    dx * dx + dz * dz > (RENDER_DISTANCE as i64) * (RENDER_DISTANCE as i64)
}

#[test]
fn initial_window_around_origin() {
    let world = WorldRenderer::new();
    // the window spans 2 * (RENDER_DISTANCE / 2) + 1 = 5 chunks per axis
    assert_eq!(world.chunk_count(), 25);
    for x in -2..=2 {
        for z in -2..=2 {
            assert!(world.contains_pos(ChunkPos::new(x, z)));
        }
    }
    assert!(!world.contains_pos(ChunkPos::new(3, 0)));
    assert!(!world.contains_pos(ChunkPos::new(0, -3)));
    check_sync(&world);
}

#[test]
fn eviction_scenario_ten_chunks_away() {
    let mut world = WorldRenderer::new();
    // move the player ten chunks along +X: world coordinate 160 / 16 = 10
    world.on_update(Vec3i::new(160, 0, 0));
    // every original chunk is at least 8 chunks away, beyond the eviction
    // radius of 4, so the whole original window is gone
    for x in -2..=2 {
        for z in -2..=2 {
            assert!(!world.contains_pos(ChunkPos::new(x, z)));
        }
    }
    // and the window around the new chunk (10, 0) is fully loaded
    for x in 8..=12 {
        for z in -2..=2 {
            assert!(world.contains_pos(ChunkPos::new(x, z)));
        }
    }
    assert_eq!(world.chunk_count(), 25);
    check_sync(&world);
}

#[test]
fn update_without_eviction_changes_nothing() {
    let mut world = WorldRenderer::new();
    // staying inside the starting chunk: nothing is far, nothing is loaded
    world.on_update(Vec3i::new(8, 0, 8));
    assert_eq!(world.chunk_count(), 25);
    for x in -2..=2 {
        for z in -2..=2 {
            assert!(world.contains_pos(ChunkPos::new(x, z)));
        }
    }
    check_sync(&world);
}

#[test]
fn partial_eviction_keeps_near_chunks() {
    let mut world = WorldRenderer::new();
    // moving three chunks along +X evicts only the far side of the window
    world.on_update(Vec3i::new(48, 0, 0));
    let center = ChunkPos::new(3, 0);
    for x in -4..=8 {
        for z in -4..=4 {
            let p = ChunkPos::new(x, z);
            let was_loaded = (-2..=2).contains(&x) && (-2..=2).contains(&z);
            let kept = was_loaded && !far(p, center);
            let window = (1..=5).contains(&x) && (-2..=2).contains(&z);
            assert_eq!(world.contains_pos(p), kept || window, "at ({}, {})", x, z);
        }
    }
    check_sync(&world);
}

#[test]
fn streaming_invariant_over_arbitrary_walk() {
    let mut world = WorldRenderer::new();
    let stops = [
        (0, 0),
        (100, -50),
        (-1000, 1000),
        (-1008, 992),
        (16000, 0),
        (0, 0),
        (31, -31),
    ];
    for &(wx, wz) in &stops {
        world.on_update(Vec3i::new(wx, 0, wz));
        check_sync(&world);
        // at every stop of this walk the window around the player's chunk
        // ends up loaded: each move either evicts something (triggering a
        // reload) or leaves the already-loaded window untouched
        let c = ChunkPos::from_world(Vec3i::new(wx, 0, wz));
        for dx in -2..=2 {
            for dz in -2..=2 {
                assert!(world.contains_pos(c.add(ChunkPos::new(dx, dz))));
            }
        }
    }
}

#[test]
fn load_chunks_merges_window() {
    let mut world = WorldRenderer::new();
    world.load_chunks(ChunkPos::new(10, 10));
    assert_eq!(world.chunk_count(), 50);
    assert!(world.contains_pos(ChunkPos::new(10, 10)));
    assert!(world.contains_pos(ChunkPos::new(12, 8)));
    assert!(world.contains_pos(ChunkPos::new(0, 0)));
    check_sync(&world);
    // loading the same window again adds nothing
    world.load_chunks(ChunkPos::new(10, 10));
    assert_eq!(world.chunk_count(), 50);
    check_sync(&world);
}

#[test]
fn unload_chunks_keeps_loaded_state() {
    let mut world = WorldRenderer::new();
    // in a resting state every chunk is loaded, so the sweep drops nothing
    world.unload_chunks();
    assert_eq!(world.chunk_count(), 25);
    check_sync(&world);
}

#[test]
fn distinct_positions_never_collide_in_the_set() {
    // (0, 1) and (1, 0) would collide under any additive key scheme; both
    // must be tracked independently
    let world = WorldRenderer::new();
    assert!(world.contains_pos(ChunkPos::new(0, 1)));
    assert!(world.contains_pos(ChunkPos::new(1, 0)));
    assert!(world.contains_pos(ChunkPos::new(-1, 1)));
    assert!(world.contains_pos(ChunkPos::new(1, -1)));
}

#[test]
fn wireframe_flag_toggles() {
    let mut world = WorldRenderer::new();
    assert!(!world.wireframe);
    world.wireframe = !world.wireframe;
    assert!(world.wireframe);
}
