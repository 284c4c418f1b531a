//! Verified core of a tile-atlas console renderer.
//!
//! A packed texture atlas holds fixed-size tiles addressed by a row-major
//! integer id. The library computes, with exact integer and rational
//! arithmetic, everything the renderer decides on the CPU: the normalized
//! atlas rectangle for a tile id, the quad mesh (vertices and indices) for a
//! grid of tile ids, the clip-space transforms, the scanline animation state,
//! and the decoding and validation of the loader's inputs. The GPU itself
//! (buffers, textures, draw calls) and all file I/O live outside the library.

pub mod addressing;
pub mod atlas;
pub mod frac;
pub mod mesh;
pub mod scanline;
pub mod screen;
pub mod textblock;
pub mod tileblock;
pub mod transform;
