//! The six axis-aligned face directions of a cube.

use vstd::prelude::*;

use crate::vec3::Vec3i;

verus! {

/// One of the six axis-aligned face directions.
///
/// `Left`/`Right` point along -X/+X, `Bottom`/`Top` along -Y/+Y and
/// `Back`/`Front` along -Z/+Z.
#[derive(Debug, Clone, Copy, PartialEq, Eq, Structural)]
pub enum Direction {
    Left,
    Right,
    Bottom,
    Top,
    Back,
    Front,
}

/// The unit normal of a face direction, as a mathematical triple.
pub open spec fn spec_normal(dir: Direction) -> (int, int, int) {
    match dir {
        Direction::Left => (-1, 0, 0),
        Direction::Right => (1, 0, 0),
        Direction::Bottom => (0, -1, 0),
        Direction::Top => (0, 1, 0),
        Direction::Back => (0, 0, -1),
        Direction::Front => (0, 0, 1),
    }
}

impl Direction {
    /// The fixed, ordered set of all six face directions.
    ///
    /// Face visibility checks and quad emission iterate this array in this
    /// exact order, which fixes the order of emitted geometry.
    pub const ALL: [Direction; 6] = [
        Direction::Left,
        Direction::Right,
        Direction::Bottom,
        Direction::Top,
        Direction::Back,
        Direction::Front,
    ];

    /// The direction at position `k` of [`Direction::ALL`].
    pub open spec fn spec_nth(k: int) -> Direction {
        if k == 0 {
            Direction::Left
        } else if k == 1 {
            Direction::Right
        } else if k == 2 {
            Direction::Bottom
        } else if k == 3 {
            Direction::Top
        } else if k == 4 {
            Direction::Back
        } else {
            Direction::Front
        }
    }

    /// The direction at position `k` of [`Direction::ALL`], for indexed
    /// iteration over the six faces.
    pub fn nth(k: usize) -> (r: Direction)
        requires
            k < 6,
        ensures
            r == Direction::spec_nth(k as int),
    {
        if k == 0 {
            Direction::Left
        } else if k == 1 {
            Direction::Right
        } else if k == 2 {
            Direction::Bottom
        } else if k == 3 {
            Direction::Top
        } else if k == 4 {
            Direction::Back
        } else {
            Direction::Front
        }
    }

    /// Returns the unit integer vector pointing along this direction.
    pub fn normalized(&self) -> (r: Vec3i)
        ensures
            (r.x as int, r.y as int, r.z as int) == spec_normal(*self),
    {
        match self {
            Direction::Left => Vec3i { x: -1, y: 0, z: 0 },
            Direction::Right => Vec3i { x: 1, y: 0, z: 0 },
            Direction::Bottom => Vec3i { x: 0, y: -1, z: 0 },
            Direction::Top => Vec3i { x: 0, y: 1, z: 0 },
            Direction::Back => Vec3i { x: 0, y: 0, z: -1 },
            Direction::Front => Vec3i { x: 0, y: 0, z: 1 },
        }
    }
}

} // verus!
