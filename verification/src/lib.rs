//! A voxel build engine: a bounded 3D grid, the operations a build script may
//! perform on it, surface mesh extraction, and the two binary encodings of a
//! finished build.

pub mod block;
pub mod color;
pub mod encoding;
pub mod glb;
pub mod mesh;
pub mod nbt;
pub mod sandbox;
pub mod schematic;
pub mod voxel;
