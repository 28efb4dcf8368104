//! Block identifiers and the colours they are drawn with.

use vstd::prelude::*;

verus! {

/// What one voxel holds. `Air` is the empty cell: it is never drawn, and a
/// solid voxel next to it is exposed.
#[derive(Clone, Copy, PartialEq, Eq, Debug, Structural)]
pub enum BlockID {
    Air,
    Dirt,
    Stone,
}

/// A flat colour of four eight-bit channels; 255 is full intensity.
#[derive(Clone, Copy, PartialEq, Eq, Debug, Structural)]
pub struct Color {
    pub r: u8,
    pub g: u8,
    pub b: u8,
    pub a: u8,
}

/// The three channels of a colour that a vertex carries.
#[derive(Clone, Copy, PartialEq, Eq, Debug, Structural)]
pub struct Rgb {
    pub r: u8,
    pub g: u8,
    pub b: u8,
}

impl Color {
    /// The colour of dirt.
    pub open spec fn white() -> Color {
        Color { r: 255, g: 255, b: 255, a: 255 }
    }

    /// The colour of stone.
    pub open spec fn cyan() -> Color {
        Color { r: 0, g: 255, b: 255, a: 255 }
    }

    /// The colour without its alpha channel.
    pub open spec fn spec_rgb(self) -> Rgb {
        Rgb { r: self.r, g: self.g, b: self.b }
    }

    pub fn new(r: u8, g: u8, b: u8, a: u8) -> (c: Color)
        ensures
            c == (Color { r, g, b, a }),
    {
        Color { r, g, b, a }
    }

    #[verifier::when_used_as_spec(spec_rgb)]
    pub fn rgb(self) -> (c: Rgb)
        ensures
            c == self.spec_rgb(),
    {
        Rgb { r: self.r, g: self.g, b: self.b }
    }
}

/// Whether some block is drawn in the colour `color`.
pub open spec fn is_block_color(color: Rgb) -> bool {
    exists|block_id: BlockID|
        (#[trigger] block_id.color()) is Some && block_id.color().unwrap().rgb() == color
}

impl BlockID {
    /// Whether the voxel is air.
    pub open spec fn spec_is_empty(self) -> bool {
        self == BlockID::Air
    }

    /// The colour table: air has no colour, dirt is white, stone is cyan.
    pub open spec fn spec_color(self) -> Option<Color> {
        match self {
            BlockID::Air => None,
            BlockID::Dirt => Some(Color::white()),
            BlockID::Stone => Some(Color::cyan()),
        }
    }

    #[verifier::when_used_as_spec(spec_is_empty)]
    pub fn is_empty(self) -> (b: bool)
        ensures
            b == self.spec_is_empty(),
    {
        self == BlockID::Air
    }

    #[verifier::when_used_as_spec(spec_color)]
    pub fn color(self) -> (c: Option<Color>)
        ensures
            c == self.spec_color(),
            c is None <==> self.is_empty(),
    {
        match self {
            BlockID::Air => None,
            BlockID::Dirt => Some(Color::new(255, 255, 255, 255)),
            BlockID::Stone => Some(Color::new(0, 255, 255, 255)),
        }
    }
}

} // verus!
