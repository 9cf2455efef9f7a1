//! Integer 3-vector used for local cell coordinates, face normals and
//! world-space block positions.

use vstd::prelude::*;

verus! {

/// A 3-component integer vector.
///
/// Local positions inside a chunk, face normals and world-space block
/// translations are all integer-valued, so one integer vector type carries
/// them all.
#[derive(Debug, Clone, Copy, PartialEq, Eq, Hash, Structural)]
pub struct Vec3i {
    pub x: i32,
    pub y: i32,
    pub z: i32,
}

impl Vec3i {
    /// Builds the vector `(x, y, z)`.
    pub fn new(x: i32, y: i32, z: i32) -> (r: Vec3i)
        ensures
            r == (Vec3i { x, y, z }),
    {
        Vec3i { x, y, z }
    }

    /// Component-wise sum of `self` and `other`.
    pub fn add(self, other: Vec3i) -> (r: Vec3i)
        requires
            i32::MIN <= self.x + other.x <= i32::MAX,
            i32::MIN <= self.y + other.y <= i32::MAX,
            i32::MIN <= self.z + other.z <= i32::MAX,
        ensures
            r.x == self.x + other.x,
            r.y == self.y + other.y,
            r.z == self.z + other.z,
    {
        Vec3i { x: self.x + other.x, y: self.y + other.y, z: self.z + other.z }
    }

    /// Component-wise difference of `self` and `other`.
    pub fn sub(self, other: Vec3i) -> (r: Vec3i)
        requires
            i32::MIN <= self.x - other.x <= i32::MAX,
            i32::MIN <= self.y - other.y <= i32::MAX,
            i32::MIN <= self.z - other.z <= i32::MAX,
        ensures
            r.x == self.x - other.x,
            r.y == self.y - other.y,
            r.z == self.z - other.z,
    {
        Vec3i { x: self.x - other.x, y: self.y - other.y, z: self.z - other.z }
    }
}

} // verus!
