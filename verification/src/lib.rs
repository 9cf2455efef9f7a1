//! Voxel world core: terrain generation, face-culled meshing, index
//! generation, and chunk streaming around a moving camera.
//!
//! The crate holds the integer world model: which blocks exist in a chunk,
//! which faces of each block are visible, how the visible faces flatten into
//! vertex and index arrays, and which chunks stay loaded as the camera moves.
//! GPU buffer upload, windowing and camera control live outside; they hand the
//! library plain values and take plain values back.

pub mod vec3;

pub mod direction;

pub mod block;

pub mod vertex;

pub mod quad;

pub mod mesh;

pub mod buffer;

pub mod chunk;

pub mod world;
