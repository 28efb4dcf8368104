//! The attributes of one vertex of the mesh.

use vstd::prelude::*;
use crate::block::Rgb;

verus! {

/// A lattice point of model space.
#[derive(Clone, Copy, PartialEq, Eq, Debug, Structural)]
pub struct Point {
    pub x: i32,
    pub y: i32,
    pub z: i32,
}

/// A texture coordinate. The mesh uses the four corners of the unit square.
#[derive(Clone, Copy, PartialEq, Eq, Debug, Structural)]
pub struct TexCoord {
    pub u: u8,
    pub v: u8,
}

/// One vertex: where it is, which point of the texture it shows, and its
/// colour.
#[derive(Clone, Copy, PartialEq, Eq, Debug, Structural)]
pub struct Vertex {
    pub position: Point,
    pub uv: TexCoord,
    pub color: Rgb,
}

impl Point {
    pub fn new(x: i32, y: i32, z: i32) -> (p: Point)
        ensures
            p == (Point { x, y, z }),
    {
        Point { x, y, z }
    }
}

impl TexCoord {
    pub fn new(u: u8, v: u8) -> (t: TexCoord)
        ensures
            t == (TexCoord { u, v }),
    {
        TexCoord { u, v }
    }
}

} // verus!
