//! The face builder: one quad, given by three of its corners, as two
//! triangles.

use vstd::prelude::*;
use crate::block::Color;
use crate::vertex::{Point, TexCoord, Vertex};

verus! {

/// Number of vertices that one quad is drawn with.
pub const PLANE_VERTICES: usize = 6;

/// One coordinate of the corner that completes a parallelogram: `a`, `b`
/// and `c` are that coordinate of three corners in order, `b` the middle
/// one, and the result lies opposite `b`.
pub open spec fn opposite(a: int, b: int, c: int) -> int {
    b - (b - a) - (b - c)
}

/// Whether the corner opposite `p2` is a `Point`, that is, whether each of
/// its coordinates is an `i32`.
pub open spec fn fourth_corner_fits(p1: Point, p2: Point, p3: Point) -> bool {
    &&& i32::MIN <= opposite(p1.x as int, p2.x as int, p3.x as int) <= i32::MAX
    &&& i32::MIN <= opposite(p1.y as int, p2.y as int, p3.y as int) <= i32::MAX
    &&& i32::MIN <= opposite(p1.z as int, p2.z as int, p3.z as int) <= i32::MAX
}

/// The corner opposite `p2` in the parallelogram of which `p1`, `p2`, `p3`
/// are three corners in order.
pub open spec fn spec_fourth_corner(p1: Point, p2: Point, p3: Point) -> Point {
    Point {
        x: opposite(p1.x as int, p2.x as int, p3.x as int) as i32,
        y: opposite(p1.y as int, p2.y as int, p3.y as int) as i32,
        z: opposite(p1.z as int, p2.z as int, p3.z as int) as i32,
    }
}

/// The corners that the six vertices of a quad stand on: the triangle
/// `p1, p2, p4` and then the triangle `p2, p4, p3`.
pub open spec fn plane_corners(p1: Point, p2: Point, p3: Point) -> Seq<Point> {
    let p4 = spec_fourth_corner(p1, p2, p3);
    seq![p1, p2, p4, p2, p4, p3]
}

/// The texture coordinates of the six vertices of a quad, in order.
pub open spec fn plane_uvs() -> Seq<TexCoord> {
    seq![
        TexCoord { u: 0, v: 0 },
        TexCoord { u: 1, v: 0 },
        TexCoord { u: 0, v: 1 },
        TexCoord { u: 1, v: 0 },
        TexCoord { u: 0, v: 1 },
        TexCoord { u: 1, v: 1 },
    ]
}

/// The six vertices of the quad with corners `p1`, `p2`, `p3` and the
/// corner opposite `p2`, all in the colour `col`.
pub open spec fn plane(p1: Point, p2: Point, p3: Point, col: Color) -> Seq<Vertex> {
    Seq::new(
        PLANE_VERTICES as nat,
        |i: int|
            Vertex {
                position: plane_corners(p1, p2, p3)[i],
                uv: plane_uvs()[i],
                color: col.rgb(),
            },
    )
}

/// The corner opposite `p2`, or `None` where one of its coordinates is
/// no `i32`.
pub fn fourth_corner(p1: Point, p2: Point, p3: Point) -> (p4: Option<Point>)
    ensures
        fourth_corner_fits(p1, p2, p3) ==> p4 == Some(spec_fourth_corner(p1, p2, p3)),
        !fourth_corner_fits(p1, p2, p3) ==> p4 is None,
{
    let x: i64 = p2.x as i64 - (p2.x as i64 - p1.x as i64) - (p2.x as i64 - p3.x as i64);
    let y: i64 = p2.y as i64 - (p2.y as i64 - p1.y as i64) - (p2.y as i64 - p3.y as i64);
    let z: i64 = p2.z as i64 - (p2.z as i64 - p1.z as i64) - (p2.z as i64 - p3.z as i64);
    if i32::MIN as i64 <= x && x <= i32::MAX as i64 && i32::MIN as i64 <= y && y <= i32::MAX as i64
        && i32::MIN as i64 <= z && z <= i32::MAX as i64 {
        Some(Point { x: x as i32, y: y as i32, z: z as i32 })
    } else {
        None
    }
}

/// Draws the quad of which `pos1`, `pos2`, `pos3` are three corners in
/// order: six vertices, the triangle `pos1, pos2, pos4` and then the
/// triangle `pos2, pos4, pos3`, where `pos4` completes the parallelogram.
/// Every vertex has the colour `col`.
pub fn draw_plane(pos1: Point, pos2: Point, pos3: Point, col: Color) -> (verts: Vec<Vertex>)
    requires
        fourth_corner_fits(pos1, pos2, pos3),
    ensures
        verts@ == plane(pos1, pos2, pos3, col),
        verts@.len() == PLANE_VERTICES,
        forall|i: int| 0 <= i < verts@.len() ==> (#[trigger] verts@[i]).color == col.rgb(),
{
    let pos4 = fourth_corner(pos1, pos2, pos3).unwrap();
    let pos = [pos1, pos2, pos4, pos2, pos4, pos3];
    let uvs = [
        TexCoord::new(0, 0),
        TexCoord::new(1, 0),
        TexCoord::new(0, 1),
        TexCoord::new(1, 0),
        TexCoord::new(0, 1),
        TexCoord::new(1, 1),
    ];
    let color = col.rgb();
    let mut verts: Vec<Vertex> = Vec::new();
    for i in 0..PLANE_VERTICES
        invariant
            pos@ == plane_corners(pos1, pos2, pos3),
            uvs@ == plane_uvs(),
            color == col.rgb(),
            verts@.len() == i,
            forall|j: int|
                0 <= j < i ==> verts@[j] == (Vertex {
                    position: plane_corners(pos1, pos2, pos3)[j],
                    uv: plane_uvs()[j],
                    color: col.rgb(),
                }),
    {
        verts.push(Vertex { position: pos[i], uv: uvs[i], color });
    }
    verts
}

} // verus!
