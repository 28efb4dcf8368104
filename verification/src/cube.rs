//! The cube builder: an axis-aligned box as six quads.

use vstd::prelude::*;
use crate::block::Color;
use crate::plane::{
    draw_plane, fourth_corner_fits, plane, plane_uvs, spec_fourth_corner, PLANE_VERTICES,
};
use crate::vertex::{Point, Vertex};

verus! {

/// Number of faces of a cube.
pub const CUBE_FACES: usize = 6;

/// Number of vertices that one cube is drawn with.
pub const CUBE_VERTICES: usize = 36;

/// The extent of a box along the three axes.
#[derive(Clone, Copy, PartialEq, Eq, Debug, Structural)]
pub struct Size {
    pub width: i32,
    pub height: i32,
    pub depth: i32,
}

/// The faces of a box, in the order in which they are drawn.
#[derive(Clone, Copy, PartialEq, Eq, Debug, Structural)]
pub enum Face {
    Front,
    Back,
    Left,
    Right,
    Top,
    Bottom,
}

impl Size {
    pub fn new(width: i32, height: i32, depth: i32) -> (s: Size)
        ensures
            s == (Size { width, height, depth }),
    {
        Size { width, height, depth }
    }
}

/// Whether the corner of the box that lies opposite its origin is a
/// `Point`; then all eight corners are.
pub open spec fn cube_fits(pos: Point, size: Size) -> bool {
    &&& i32::MIN <= pos.x + size.width <= i32::MAX
    &&& i32::MIN <= pos.y + size.height <= i32::MAX
    &&& i32::MIN <= pos.z + size.depth <= i32::MAX
}

/// A corner of the box at `pos`: `far_x` says whether it lies on the side
/// away from the origin along x, and likewise `far_y` and `far_z`.
pub open spec fn spec_corner(pos: Point, size: Size, far_x: bool, far_y: bool, far_z: bool) -> Point {
    Point {
        x: if far_x { (pos.x + size.width) as i32 } else { pos.x },
        y: if far_y { (pos.y + size.height) as i32 } else { pos.y },
        z: if far_z { (pos.z + size.depth) as i32 } else { pos.z },
    }
}

/// The three corners from which a face of the box is drawn, the middle one
/// second.
pub open spec fn face_corners(pos: Point, size: Size, face: Face) -> (Point, Point, Point) {
    match face {
        Face::Front => (
            spec_corner(pos, size, false, false, false),
            spec_corner(pos, size, false, true, false),
            spec_corner(pos, size, true, true, false),
        ),
        Face::Back => (
            spec_corner(pos, size, false, false, true),
            spec_corner(pos, size, false, true, true),
            spec_corner(pos, size, true, true, true),
        ),
        Face::Left => (
            spec_corner(pos, size, false, false, false),
            spec_corner(pos, size, false, true, false),
            spec_corner(pos, size, false, true, true),
        ),
        Face::Right => (
            spec_corner(pos, size, true, false, false),
            spec_corner(pos, size, true, true, false),
            spec_corner(pos, size, true, true, true),
        ),
        Face::Top => (
            spec_corner(pos, size, false, true, false),
            spec_corner(pos, size, false, true, true),
            spec_corner(pos, size, true, true, true),
        ),
        Face::Bottom => (
            spec_corner(pos, size, false, false, false),
            spec_corner(pos, size, false, false, true),
            spec_corner(pos, size, true, false, true),
        ),
    }
}

/// The six vertices of one face of the box.
pub open spec fn cube_face(pos: Point, size: Size, face: Face, col: Color) -> Seq<Vertex> {
    let (p1, p2, p3) = face_corners(pos, size, face);
    plane(p1, p2, p3, col)
}

/// The thirty-six vertices of the box at `pos`: its faces front, back,
/// left, right, top, bottom, one after the other.
pub open spec fn cube(pos: Point, size: Size, col: Color) -> Seq<Vertex> {
    cube_face(pos, size, Face::Front, col) + cube_face(pos, size, Face::Back, col) + cube_face(
        pos,
        size,
        Face::Left,
        col,
    ) + cube_face(pos, size, Face::Right, col) + cube_face(pos, size, Face::Top, col) + cube_face(
        pos,
        size,
        Face::Bottom,
        col,
    )
}

/// Whether `p` is one of the eight corners of the box at `pos`.
pub open spec fn is_cube_corner(pos: Point, size: Size, p: Point) -> bool {
    &&& p.x == pos.x || p.x == pos.x + size.width
    &&& p.y == pos.y || p.y == pos.y + size.height
    &&& p.z == pos.z || p.z == pos.z + size.depth
}

/// Whether `p` lies in the plane of the side `face` of the box at `pos`.
pub open spec fn on_face(pos: Point, size: Size, face: Face, p: Point) -> bool {
    match face {
        Face::Front => p.z == pos.z,
        Face::Back => p.z == pos.z + size.depth,
        Face::Left => p.x == pos.x,
        Face::Right => p.x == pos.x + size.width,
        Face::Top => p.y == pos.y + size.height,
        Face::Bottom => p.y == pos.y,
    }
}

/// Whether one of the vertices `verts` stands at the point `p`.
pub open spec fn has_vertex_at(verts: Seq<Vertex>, p: Point) -> bool {
    exists|i: int| 0 <= i < verts.len() && (#[trigger] verts[i]).position == p
}

/// The corner of the box that `far_x`, `far_y`, `far_z` select.
pub fn corner(pos: Point, size: Size, far_x: bool, far_y: bool, far_z: bool) -> (p: Point)
    requires
        cube_fits(pos, size),
    ensures
        p == spec_corner(pos, size, far_x, far_y, far_z),
{
    Point {
        x: if far_x { pos.x + size.width } else { pos.x },
        y: if far_y { pos.y + size.height } else { pos.y },
        z: if far_z { pos.z + size.depth } else { pos.z },
    }
}

/// Draws the box with origin `pos` and extent `size` in the colour `col`:
/// all six faces, each as a quad of six vertices, in the order front, back,
/// left, right, top, bottom.
pub fn draw_cube(pos: Point, size: Size, col: Color) -> (verts: Vec<Vertex>)
    requires
        cube_fits(pos, size),
    ensures
        verts@ == cube(pos, size, col),
        verts@.len() == CUBE_VERTICES,
{
    proof {
        lemma_face_fourth_corner(pos, size, Face::Front);
        lemma_face_fourth_corner(pos, size, Face::Back);
        lemma_face_fourth_corner(pos, size, Face::Left);
        lemma_face_fourth_corner(pos, size, Face::Right);
        lemma_face_fourth_corner(pos, size, Face::Top);
        lemma_face_fourth_corner(pos, size, Face::Bottom);
    }
    let mut verts: Vec<Vertex> = Vec::new();

    let mut pos1 = corner(pos, size, false, false, false);
    let mut pos2 = corner(pos, size, false, true, false);
    let mut pos3 = corner(pos, size, true, true, false);
    let mut front = draw_plane(pos1, pos2, pos3, col);
    verts.append(&mut front);

    pos1 = corner(pos, size, false, false, true);
    pos2 = corner(pos, size, false, true, true);
    pos3 = corner(pos, size, true, true, true);
    let mut back = draw_plane(pos1, pos2, pos3, col);
    verts.append(&mut back);

    pos1 = corner(pos, size, false, false, false);
    pos2 = corner(pos, size, false, true, false);
    pos3 = corner(pos, size, false, true, true);
    let mut left = draw_plane(pos1, pos2, pos3, col);
    verts.append(&mut left);

    pos1 = corner(pos, size, true, false, false);
    pos2 = corner(pos, size, true, true, false);
    pos3 = corner(pos, size, true, true, true);
    let mut right = draw_plane(pos1, pos2, pos3, col);
    verts.append(&mut right);

    pos1 = corner(pos, size, false, true, false);
    pos2 = corner(pos, size, false, true, true);
    pos3 = corner(pos, size, true, true, true);
    let mut top = draw_plane(pos1, pos2, pos3, col);
    verts.append(&mut top);

    pos1 = corner(pos, size, false, false, false);
    pos2 = corner(pos, size, false, false, true);
    pos3 = corner(pos, size, true, false, true);
    let mut bottom = draw_plane(pos1, pos2, pos3, col);
    verts.append(&mut bottom);

    verts
}

/// The fourth corner of every face of a box is a corner of the box, so it
/// is a `Point` whenever the box fits.
pub proof fn lemma_face_fourth_corner(pos: Point, size: Size, face: Face)
    requires
        cube_fits(pos, size),
    ensures
        ({
            let (p1, p2, p3) = face_corners(pos, size, face);
            &&& fourth_corner_fits(p1, p2, p3)
            &&& is_cube_corner(pos, size, p1)
            &&& is_cube_corner(pos, size, p2)
            &&& is_cube_corner(pos, size, p3)
            &&& is_cube_corner(pos, size, spec_fourth_corner(p1, p2, p3))
        }),
{
}

/// The face to which the vertices `6 * k .. 6 * k + 6` of a box belong.
pub open spec fn face_at(k: int) -> Face {
    if k == 0 {
        Face::Front
    } else if k == 1 {
        Face::Back
    } else if k == 2 {
        Face::Left
    } else if k == 3 {
        Face::Right
    } else if k == 4 {
        Face::Top
    } else {
        Face::Bottom
    }
}

/// A box is drawn with six vertices for each of its six faces: vertex `i`
/// is vertex `i % 6` of face `i / 6`.
pub proof fn lemma_cube_vertex(pos: Point, size: Size, col: Color, i: int)
    requires
        0 <= i < CUBE_VERTICES,
    ensures
        CUBE_VERTICES == CUBE_FACES * PLANE_VERTICES,
        cube(pos, size, col).len() == CUBE_VERTICES,
        cube(pos, size, col)[i] == cube_face(pos, size, face_at(i / 6), col)[i % 6],
{
}

/// The six vertices of a face stand on corners of the box that lie in the
/// plane of that face.
pub proof fn lemma_face_lies_on_side(pos: Point, size: Size, face: Face, col: Color, k: int)
    requires
        cube_fits(pos, size),
        0 <= k < PLANE_VERTICES,
    ensures
        is_cube_corner(pos, size, cube_face(pos, size, face, col)[k].position),
        on_face(pos, size, face, cube_face(pos, size, face, col)[k].position),
{
    lemma_face_fourth_corner(pos, size, face);
}

/// All thirty-six vertices of a box have the colour that it was drawn in.
pub proof fn lemma_cube_color(pos: Point, size: Size, col: Color)
    ensures
        forall|i: int|
            0 <= i < CUBE_VERTICES ==> (#[trigger] cube(pos, size, col)[i]).color == col.rgb(),
{
    assert forall|i: int| 0 <= i < CUBE_VERTICES implies (#[trigger] cube(
        pos,
        size,
        col,
    )[i]).color == col.rgb() by {
        lemma_cube_vertex(pos, size, col, i);
    }
}

/// The texture coordinates of a box repeat those of a quad on every face.
pub proof fn lemma_cube_uv(pos: Point, size: Size, col: Color)
    ensures
        forall|i: int|
            0 <= i < CUBE_VERTICES ==> (#[trigger] cube(pos, size, col)[i]).uv == plane_uvs()[i % 6],
{
    assert forall|i: int| 0 <= i < CUBE_VERTICES implies (#[trigger] cube(pos, size, col)[i]).uv
        == plane_uvs()[i % 6] by {
        lemma_cube_vertex(pos, size, col, i);
    }
}

/// Every vertex of a box stands on one of its eight corners.
pub proof fn lemma_cube_positions(pos: Point, size: Size, col: Color)
    requires
        cube_fits(pos, size),
    ensures
        forall|i: int|
            0 <= i < CUBE_VERTICES ==> is_cube_corner(
                pos,
                size,
                (#[trigger] cube(pos, size, col)[i]).position,
            ),
{
    assert forall|i: int| 0 <= i < CUBE_VERTICES implies is_cube_corner(
        pos,
        size,
        (#[trigger] cube(pos, size, col)[i]).position,
    ) by {
        lemma_cube_vertex(pos, size, col, i);
        lemma_face_fourth_corner(pos, size, face_at(i / 6));
    }
}

/// Every one of the eight corners of a box carries a vertex.
pub proof fn lemma_cube_covers_corner(
    pos: Point,
    size: Size,
    col: Color,
    far_x: bool,
    far_y: bool,
    far_z: bool,
)
    requires
        cube_fits(pos, size),
    ensures
        has_vertex_at(cube(pos, size, col), spec_corner(pos, size, far_x, far_y, far_z)),
{
    // The front face carries the four near corners, the back face the four
    // far ones: vertices 0, 1, 2, 5 of each.
    let face: int = if far_z { 1 } else { 0 };
    let k: int = if far_x {
        if far_y { 5 } else { 2 }
    } else {
        if far_y { 1 } else { 0 }
    };
    let i = 6 * face + k;
    lemma_cube_vertex(pos, size, col, i);
    lemma_face_fourth_corner(pos, size, face_at(face));
    assert(cube(pos, size, col)[i].position == spec_corner(pos, size, far_x, far_y, far_z));
}

} // verus!
