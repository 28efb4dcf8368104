//! The layout in which a mesh is handed to a renderer: a flat stream of
//! scalars, eight to a vertex.
//!
//! Each vertex gives three position coordinates, two texture coordinates
//! and the three colour channels red, green, blue, in this order. A
//! renderer declares the same three groups, in the same order, when it
//! describes the buffer.

use vstd::prelude::*;
use crate::vertex::Vertex;

verus! {

/// Number of position coordinates of a vertex.
pub const POSITION_COMPONENTS: usize = 3;

/// Number of texture coordinates of a vertex.
pub const UV_COMPONENTS: usize = 2;

/// Number of colour channels of a vertex.
pub const COLOR_COMPONENTS: usize = 3;

/// Number of scalars of a vertex.
pub const VERTEX_STRIDE: usize = 8;

/// One scalar of the flat stream. The variant says how a renderer scales
/// it: a position or texture coordinate is taken as it is, a channel is an
/// intensity out of 255.
#[derive(Clone, Copy, PartialEq, Eq, Debug, Structural)]
pub enum Attribute {
    Coordinate(i32),
    Uv(u8),
    Channel(u8),
}

/// The eight scalars of one vertex: `x, y, z, u, v, r, g, b`.
pub open spec fn vertex_attributes(vertex: Vertex) -> Seq<Attribute> {
    seq![
        Attribute::Coordinate(vertex.position.x),
        Attribute::Coordinate(vertex.position.y),
        Attribute::Coordinate(vertex.position.z),
        Attribute::Uv(vertex.uv.u),
        Attribute::Uv(vertex.uv.v),
        Attribute::Channel(vertex.color.r),
        Attribute::Channel(vertex.color.g),
        Attribute::Channel(vertex.color.b),
    ]
}

/// The flat stream of the vertices `verts`: scalar `i` is scalar `i % 8` of
/// vertex `i / 8`.
pub open spec fn flat_attributes(verts: Seq<Vertex>) -> Seq<Attribute> {
    Seq::new(
        verts.len() * VERTEX_STRIDE as nat,
        |i: int| vertex_attributes(verts[i / VERTEX_STRIDE as int])[i % VERTEX_STRIDE as int],
    )
}

/// The flat stream has eight scalars for every vertex, and those of vertex
/// `i` stand together from `8 * i` on.
pub proof fn lemma_flat_attributes(verts: Seq<Vertex>, i: int, k: int)
    requires
        0 <= i < verts.len(),
        0 <= k < VERTEX_STRIDE,
    ensures
        flat_attributes(verts).len() == VERTEX_STRIDE * verts.len(),
        vertex_attributes(verts[i]).len() == VERTEX_STRIDE,
        POSITION_COMPONENTS + UV_COMPONENTS + COLOR_COMPONENTS == VERTEX_STRIDE,
        flat_attributes(verts)[VERTEX_STRIDE * i + k] == vertex_attributes(verts[i])[k],
{
}

impl Vertex {
    /// The eight scalars of the vertex: `x, y, z, u, v, r, g, b`.
    pub fn attributes(&self) -> (scalars: [Attribute; 8])
        ensures
            scalars@ == vertex_attributes(*self),
    {
        let scalars = [
            Attribute::Coordinate(self.position.x),
            Attribute::Coordinate(self.position.y),
            Attribute::Coordinate(self.position.z),
            Attribute::Uv(self.uv.u),
            Attribute::Uv(self.uv.v),
            Attribute::Channel(self.color.r),
            Attribute::Channel(self.color.g),
            Attribute::Channel(self.color.b),
        ];
        scalars
    }
}

/// Lays the vertices `verts` out as a flat stream, eight scalars to a
/// vertex, in the order of the vertices.
pub fn flatten(verts: &Vec<Vertex>) -> (flat: Vec<Attribute>)
    requires
        verts@.len() * VERTEX_STRIDE <= usize::MAX,
    ensures
        flat@ == flat_attributes(verts@),
        flat@.len() == VERTEX_STRIDE * verts@.len(),
{
    let mut flat: Vec<Attribute> = Vec::new();
    for i in 0..verts.len()
        invariant
            verts@.len() * VERTEX_STRIDE <= usize::MAX,
            flat@.len() == VERTEX_STRIDE * i,
            forall|j: int|
                0 <= j < flat@.len() ==> flat@[j] == vertex_attributes(
                    verts@[j / VERTEX_STRIDE as int],
                )[j % VERTEX_STRIDE as int],
    {
        let scalars = verts[i].attributes();
        for k in 0..VERTEX_STRIDE
            invariant
                i < verts@.len(),
                scalars@ == vertex_attributes(verts@[i as int]),
                flat@.len() == VERTEX_STRIDE * i + k,
                forall|j: int|
                    0 <= j < flat@.len() ==> flat@[j] == vertex_attributes(
                        verts@[j / VERTEX_STRIDE as int],
                    )[j % VERTEX_STRIDE as int],
        {
            flat.push(scalars[k]);
        }
    }
    flat
}

} // verus!
