//! Meshing of a cubic voxel chunk into renderable triangles.
//!
//! A [`Chunk`] is a 32 x 32 x 32 grid of [`BlockID`]s. [`ChunkMesh::new`]
//! decides which voxels are exposed, and emits for each exposed solid voxel
//! a unit cube of six quads, every quad as two triangles.
//!
//! All geometry is integral: positions are lattice points, texture
//! coordinates are corners of the unit square and colour channels are
//! eight-bit intensities. A renderer turns them into floating point when it
//! uploads the buffer; every position of a mesh lies between 0 and 32, so
//! nothing is rounded on the way.

pub mod block;
pub mod chunk;
pub mod cube;
pub mod exposure;
pub mod layout;
pub mod mesh;
pub mod plane;
pub mod vertex;

pub use block::{BlockID, Color, Rgb};
pub use chunk::{Chunk, OutOfRange, CHUNK_LAYER, CHUNK_SIZE, CHUNK_VOLUME};
pub use cube::{corner, draw_cube, Face, Size, CUBE_FACES, CUBE_VERTICES};
pub use exposure::{is_exposed, is_on_boundary};
pub use layout::{
    flatten, Attribute, COLOR_COMPONENTS, POSITION_COMPONENTS, UV_COMPONENTS, VERTEX_STRIDE,
};
pub use mesh::{draw_voxel, ChunkMesh, BOUNDARY_VOXELS};
pub use plane::{draw_plane, fourth_corner, PLANE_VERTICES};
pub use vertex::{Point, TexCoord, Vertex};
