//! Voxel-world storage for block-game levels: palette-compressed chunk
//! sections, chunks with incrementally maintained heightmaps, block-identity
//! conversion between a canonical id space and per-version numeric ids,
//! block-entity tag parsing, and the fixed-size classic level layout.
pub mod region;
pub mod block;
pub mod palette;
pub mod section;
pub mod chunk;
pub mod entity;
pub mod level;
pub mod classic;
