//! The voxel grid: a cube of blocks stored row-major in one flat array.

use vstd::prelude::*;
use crate::block::BlockID;

verus! {

/// Edge length of a chunk, in voxels.
pub const CHUNK_SIZE: usize = 32;

/// Number of voxels in one horizontal layer of a chunk: `CHUNK_SIZE` squared.
pub const CHUNK_LAYER: usize = 1024;

/// Number of voxels in a chunk: `CHUNK_SIZE` cubed.
pub const CHUNK_VOLUME: usize = 32768;

/// Whether `(x, y, z)` names a cell of the grid.
pub open spec fn in_bounds(x: int, y: int, z: int) -> bool {
    &&& 0 <= x < CHUNK_SIZE
    &&& 0 <= y < CHUNK_SIZE
    &&& 0 <= z < CHUNK_SIZE
}

/// Row-major position of the cell `(x, y, z)` in the flat array:
/// `x` runs fastest, then `y`, then `z`.
pub open spec fn linear_index(x: int, y: int, z: int) -> int {
    x + y * CHUNK_SIZE + z * CHUNK_SIZE * CHUNK_SIZE
}

/// The x coordinate of the cell that stands at `index` in the flat array.
pub open spec fn cell_x(index: int) -> int {
    index % (CHUNK_SIZE as int)
}

/// The y coordinate of the cell that stands at `index` in the flat array.
pub open spec fn cell_y(index: int) -> int {
    (index / (CHUNK_SIZE as int)) % (CHUNK_SIZE as int)
}

/// The z coordinate of the cell that stands at `index` in the flat array.
pub open spec fn cell_z(index: int) -> int {
    index / (CHUNK_LAYER as int)
}

/// The grid in which every cell is air.
pub open spec fn empty_grid() -> Seq<BlockID> {
    Seq::new(CHUNK_VOLUME as nat, |i: int| BlockID::Air)
}

/// The block that the grid `cells` holds at `(x, y, z)`.
pub open spec fn block_at(cells: Seq<BlockID>, x: int, y: int, z: int) -> BlockID {
    cells[linear_index(x, y, z)]
}

/// A coordinate that does not name a cell of the grid.
#[derive(Clone, Copy, PartialEq, Eq, Debug, Structural)]
pub struct OutOfRange {
    pub x: usize,
    pub y: usize,
    pub z: usize,
}

/// A cube of `CHUNK_SIZE`^3 blocks.
///
/// Its view is the flat sequence of its cells, of length `CHUNK_VOLUME`, in
/// which the cell `(x, y, z)` stands at `linear_index(x, y, z)`.
pub struct Chunk {
    blocks: [BlockID; CHUNK_VOLUME],
}

impl View for Chunk {
    type V = Seq<BlockID>;

    closed spec fn view(&self) -> Seq<BlockID> {
        self.blocks@
    }
}

impl Chunk {
    /// The block at `(x, y, z)`.
    pub open spec fn spec_get(&self, x: int, y: int, z: int) -> BlockID {
        block_at(self@, x, y, z)
    }

    /// Every chunk has exactly `CHUNK_VOLUME` cells.
    pub proof fn lemma_volume(&self)
        ensures
            self@.len() == CHUNK_VOLUME,
    {
    }

    /// A chunk of air.
    pub fn new() -> (chunk: Chunk)
        ensures
            chunk@ == empty_grid(),
    {
        Chunk { blocks: [BlockID::Air; CHUNK_VOLUME] }
    }

    /// Whether `(x, y, z)` names a cell.
    pub fn contains(x: usize, y: usize, z: usize) -> (b: bool)
        ensures
            b == in_bounds(x as int, y as int, z as int),
    {
        x < CHUNK_SIZE && y < CHUNK_SIZE && z < CHUNK_SIZE
    }

    /// Puts `block_id` into the cell `(x, y, z)` and leaves every other cell
    /// as it was.
    pub fn set(&mut self, x: usize, y: usize, z: usize, block_id: BlockID)
        requires
            in_bounds(x as int, y as int, z as int),
        ensures
            final(self)@ == old(self)@.update(linear_index(x as int, y as int, z as int), block_id),
    {
        self.blocks[x + y * CHUNK_SIZE + z * CHUNK_SIZE * CHUNK_SIZE] = block_id;
    }

    /// The block in the cell `(x, y, z)`.
    pub fn get(&self, x: usize, y: usize, z: usize) -> (block_id: BlockID)
        requires
            in_bounds(x as int, y as int, z as int),
        ensures
            block_id == self.spec_get(x as int, y as int, z as int),
    {
        self.blocks[x + y * CHUNK_SIZE + z * CHUNK_SIZE * CHUNK_SIZE]
    }

    /// Puts `block_id` into every cell of the horizontal layer `z` and
    /// leaves the other layers as they were.
    pub fn fill_layer(&mut self, z: usize, block_id: BlockID)
        requires
            z < CHUNK_SIZE,
        ensures
            final(self)@ == Seq::new(
                CHUNK_VOLUME as nat,
                |i: int| if cell_z(i) == z { block_id } else { old(self)@[i] },
            ),
    {
        let ghost before = self@;
        let ghost first = z * CHUNK_LAYER;
        for y in 0..CHUNK_SIZE
            invariant
                z < CHUNK_SIZE,
                first == z * CHUNK_LAYER,
                self@ == Seq::new(
                    CHUNK_VOLUME as nat,
                    |i: int| if first <= i < first + y * CHUNK_SIZE { block_id } else { before[i] },
                ),
        {
            for x in 0..CHUNK_SIZE
                invariant
                    z < CHUNK_SIZE,
                    y < CHUNK_SIZE,
                    first == z * CHUNK_LAYER,
                    self@ == Seq::new(
                        CHUNK_VOLUME as nat,
                        |i: int|
                            if first <= i < first + y * CHUNK_SIZE + x {
                                block_id
                            } else {
                                before[i]
                            },
                    ),
            {
                self.set(x, y, z, block_id);
            }
        }
    }

    /// As `set`, for a coordinate that may lie outside the grid: then the
    /// chunk is left unchanged and the coordinate comes back as the error.
    pub fn try_set(&mut self, x: usize, y: usize, z: usize, block_id: BlockID) -> (r: Result<
        (),
        OutOfRange,
    >)
        ensures
            in_bounds(x as int, y as int, z as int) ==> r is Ok && final(self)@ == old(self)@.update(
                linear_index(x as int, y as int, z as int),
                block_id,
            ),
            !in_bounds(x as int, y as int, z as int) ==> r == Err::<(), OutOfRange>(
                OutOfRange { x, y, z },
            ) && final(self)@ == old(self)@,
    {
        if Chunk::contains(x, y, z) {
            self.set(x, y, z, block_id);
            Ok(())
        } else {
            Err(OutOfRange { x, y, z })
        }
    }

    /// As `get`, for a coordinate that may lie outside the grid: then the
    /// coordinate comes back as the error.
    pub fn try_get(&self, x: usize, y: usize, z: usize) -> (r: Result<BlockID, OutOfRange>)
        ensures
            in_bounds(x as int, y as int, z as int) ==> r == Ok::<BlockID, OutOfRange>(
                self.spec_get(x as int, y as int, z as int),
            ),
            !in_bounds(x as int, y as int, z as int) ==> r == Err::<BlockID, OutOfRange>(
                OutOfRange { x, y, z },
            ),
    {
        if Chunk::contains(x, y, z) {
            Ok(self.get(x, y, z))
        } else {
            Err(OutOfRange { x, y, z })
        }
    }
}

/// The row-major index of a cell of the grid lies inside the flat array.
pub proof fn lemma_linear_index_bounds(x: int, y: int, z: int)
    requires
        in_bounds(x, y, z),
    ensures
        0 <= linear_index(x, y, z) < CHUNK_VOLUME,
{
}

/// Two cells of the grid that share a row-major index are the same cell.
pub proof fn lemma_linear_index_injective(x1: int, y1: int, z1: int, x2: int, y2: int, z2: int)
    requires
        in_bounds(x1, y1, z1),
        in_bounds(x2, y2, z2),
        linear_index(x1, y1, z1) == linear_index(x2, y2, z2),
    ensures
        x1 == x2,
        y1 == y2,
        z1 == z2,
{
}

/// The coordinates of a cell are those of its row-major index, and the
/// other way round.
pub proof fn lemma_cell_of_linear_index(x: int, y: int, z: int)
    requires
        in_bounds(x, y, z),
    ensures
        cell_x(linear_index(x, y, z)) == x,
        cell_y(linear_index(x, y, z)) == y,
        cell_z(linear_index(x, y, z)) == z,
{
}

/// Every index of the flat array is the row-major index of the cell whose
/// coordinates it gives.
pub proof fn lemma_linear_index_of_cell(index: int)
    requires
        0 <= index < CHUNK_VOLUME,
    ensures
        in_bounds(cell_x(index), cell_y(index), cell_z(index)),
        linear_index(cell_x(index), cell_y(index), cell_z(index)) == index,
{
}

/// Writing a cell and reading the same cell back gives the block that was
/// written; reading any other cell gives what it held before.
pub proof fn lemma_set_then_get(
    cells: Seq<BlockID>,
    x: int,
    y: int,
    z: int,
    block_id: BlockID,
    x2: int,
    y2: int,
    z2: int,
)
    requires
        cells.len() == CHUNK_VOLUME,
        in_bounds(x, y, z),
        in_bounds(x2, y2, z2),
    ensures
        block_at(cells.update(linear_index(x, y, z), block_id), x, y, z) == block_id,
        (x2 != x || y2 != y || z2 != z) ==> block_at(
            cells.update(linear_index(x, y, z), block_id),
            x2,
            y2,
            z2,
        ) == block_at(cells, x2, y2, z2),
{
}

} // verus!
