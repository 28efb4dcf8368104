//! Visibility culling: which voxels of a chunk are exposed.
//!
//! A voxel on one of the six outer layers of the chunk is always exposed.
//! Any other voxel is exposed when one of the 27 cells of the 3 x 3 x 3
//! block around it, itself included, is air.

use vstd::prelude::*;
use crate::block::BlockID;
use crate::chunk::{block_at, in_bounds, Chunk, CHUNK_SIZE, CHUNK_VOLUME};

verus! {

/// Whether `(x, y, z)` lies on one of the six outer layers of the chunk.
pub open spec fn on_boundary(x: int, y: int, z: int) -> bool {
    ||| x == 0
    ||| y == 0
    ||| z == 0
    ||| x == CHUNK_SIZE - 1
    ||| y == CHUNK_SIZE - 1
    ||| z == CHUNK_SIZE - 1
}

/// Whether `(x, y, z)` is a cell of the chunk that lies on none of its outer
/// layers, so that all 27 cells around it are cells of the chunk.
pub open spec fn is_interior(x: int, y: int, z: int) -> bool {
    in_bounds(x, y, z) && !on_boundary(x, y, z)
}

/// Whether one of the 27 cells around `(x, y, z)`, itself included, is
/// air: some cell that differs from it by at most one in every coordinate.
pub open spec fn touches_air(cells: Seq<BlockID>, x: int, y: int, z: int) -> bool {
    exists|nx: int, ny: int, nz: int|
        x - 1 <= nx <= x + 1 && y - 1 <= ny <= y + 1 && z - 1 <= nz <= z + 1
            && #[trigger] block_at(cells, nx, ny, nz) == BlockID::Air
}

/// Whether the voxel at `(x, y, z)` is exposed: it lies on the boundary of
/// the chunk, or one of the 27 cells around it is air.
pub open spec fn exposed(cells: Seq<BlockID>, x: int, y: int, z: int) -> bool {
    on_boundary(x, y, z) || touches_air(cells, x, y, z)
}

/// Whether the voxel at `(x, y, z)` is drawn: it is exposed and not air.
pub open spec fn visible(cells: Seq<BlockID>, x: int, y: int, z: int) -> bool {
    exposed(cells, x, y, z) && block_at(cells, x, y, z) != BlockID::Air
}

/// A voxel on the boundary is exposed whatever surrounds it, so it is
/// visible exactly when it is not air.
pub proof fn lemma_visible_on_boundary(cells: Seq<BlockID>, x: int, y: int, z: int)
    requires
        on_boundary(x, y, z),
    ensures
        exposed(cells, x, y, z),
        visible(cells, x, y, z) <==> block_at(cells, x, y, z) != BlockID::Air,
{
}

/// A voxel next to air is exposed: `(nx, ny, nz)` is a cell of air that
/// differs from `(x, y, z)` by at most one in every coordinate.
pub proof fn lemma_exposed_by_neighbour(
    cells: Seq<BlockID>,
    x: int,
    y: int,
    z: int,
    nx: int,
    ny: int,
    nz: int,
)
    requires
        x - 1 <= nx <= x + 1,
        y - 1 <= ny <= y + 1,
        z - 1 <= nz <= z + 1,
        block_at(cells, nx, ny, nz) == BlockID::Air,
    ensures
        touches_air(cells, x, y, z),
        exposed(cells, x, y, z),
{
}

/// A voxel inside the chunk whose 27 neighbours, itself included, are all
/// solid is not exposed.
pub proof fn lemma_enclosed_is_hidden(cells: Seq<BlockID>, x: int, y: int, z: int)
    requires
        is_interior(x, y, z),
        forall|nx: int, ny: int, nz: int|
            x - 1 <= nx <= x + 1 && y - 1 <= ny <= y + 1 && z - 1 <= nz <= z + 1
                ==> #[trigger] block_at(cells, nx, ny, nz) != BlockID::Air,
    ensures
        !touches_air(cells, x, y, z),
        !exposed(cells, x, y, z),
        !visible(cells, x, y, z),
{
}

/// In a grid without air exactly the voxels on the boundary are exposed,
/// and exactly those are visible.
pub proof fn lemma_solid_grid_exposure(cells: Seq<BlockID>, x: int, y: int, z: int)
    requires
        cells.len() == CHUNK_VOLUME,
        forall|i: int| 0 <= i < CHUNK_VOLUME ==> cells[i] != BlockID::Air,
        in_bounds(x, y, z),
    ensures
        exposed(cells, x, y, z) <==> on_boundary(x, y, z),
        visible(cells, x, y, z) <==> on_boundary(x, y, z),
{
}

/// Whether one of the first `n` cells of the row `x - 1, x, x + 1` at
/// height `y` and depth `z` is air.
spec fn row_scan(cells: Seq<BlockID>, x: int, y: int, z: int, n: int) -> bool {
    ||| n > 0 && block_at(cells, x - 1, y, z) == BlockID::Air
    ||| n > 1 && block_at(cells, x, y, z) == BlockID::Air
    ||| n > 2 && block_at(cells, x + 1, y, z) == BlockID::Air
}

/// Whether one of the first `n` of the rows `y - 1, y, y + 1` at depth `z`
/// holds air in one of the columns `x - 1, x, x + 1`.
spec fn layer_scan(cells: Seq<BlockID>, x: int, y: int, z: int, n: int) -> bool {
    ||| n > 0 && row_scan(cells, x, y - 1, z, 3)
    ||| n > 1 && row_scan(cells, x, y, z, 3)
    ||| n > 2 && row_scan(cells, x, y + 1, z, 3)
}

/// Whether one of the first `n` of the layers `z - 1, z, z + 1` holds air
/// in one of the nine cells around `(x, y)`.
spec fn block_scan(cells: Seq<BlockID>, x: int, y: int, z: int, n: int) -> bool {
    ||| n > 0 && layer_scan(cells, x, y, z - 1, 3)
    ||| n > 1 && layer_scan(cells, x, y, z, 3)
    ||| n > 2 && layer_scan(cells, x, y, z + 1, 3)
}

/// A scan of all three layers finds air exactly when the voxel touches air.
proof fn lemma_full_scan(cells: Seq<BlockID>, x: int, y: int, z: int)
    ensures
        block_scan(cells, x, y, z, 3) == touches_air(cells, x, y, z),
{
    if block_scan(cells, x, y, z, 3) {
        let nz = if layer_scan(cells, x, y, z - 1, 3) {
            z - 1
        } else if layer_scan(cells, x, y, z, 3) {
            z
        } else {
            z + 1
        };
        let ny = if row_scan(cells, x, y - 1, nz, 3) {
            y - 1
        } else if row_scan(cells, x, y, nz, 3) {
            y
        } else {
            y + 1
        };
        let nx = if block_at(cells, x - 1, ny, nz) == BlockID::Air {
            x - 1
        } else if block_at(cells, x, ny, nz) == BlockID::Air {
            x
        } else {
            x + 1
        };
        assert(block_at(cells, nx, ny, nz) == BlockID::Air);
    }
}

/// Whether the voxel at `(x, y, z)` lies on the boundary of the chunk.
pub fn is_on_boundary(x: usize, y: usize, z: usize) -> (b: bool)
    ensures
        b == on_boundary(x as int, y as int, z as int),
{
    x == 0 || y == 0 || z == 0 || x == CHUNK_SIZE - 1 || y == CHUNK_SIZE - 1 || z == CHUNK_SIZE - 1
}

/// Whether the voxel at `(x, y, z)` of `chunk` is exposed. A voxel on the
/// boundary is exposed without a look at its neighbours, so no cell
/// outside the chunk is ever read.
pub fn is_exposed(chunk: &Chunk, x: usize, y: usize, z: usize) -> (check: bool)
    requires
        in_bounds(x as int, y as int, z as int),
    ensures
        check == exposed(chunk@, x as int, y as int, z as int),
{
    let mut check = false;
    if !is_on_boundary(x, y, z) {
        for i in 0..3usize
            invariant
                is_interior(x as int, y as int, z as int),
                check == block_scan(chunk@, x as int, y as int, z as int, i as int),
        {
            for j in 0..3usize
                invariant
                    is_interior(x as int, y as int, z as int),
                    i < 3,
                    check == (block_scan(chunk@, x as int, y as int, z as int, i as int)
                        || layer_scan(
                        chunk@,
                        x as int,
                        y as int,
                        z + i - 1,
                        j as int,
                    )),
            {
                for l in 0..3usize
                    invariant
                        is_interior(x as int, y as int, z as int),
                        i < 3,
                        j < 3,
                        check == (block_scan(
                            chunk@,
                            x as int,
                            y as int,
                            z as int,
                            i as int,
                        ) || layer_scan(chunk@, x as int, y as int, z + i - 1, j as int)
                            || row_scan(
                            chunk@,
                            x as int,
                            y + j - 1,
                            z + i - 1,
                            l as int,
                        )),
                {
                    if chunk.get(x + l - 1, y + j - 1, z + i - 1) == BlockID::Air {
                        check = true;
                    }
                }
            }
        }
    } else {
        check = true;
    }
    proof {
        lemma_full_scan(chunk@, x as int, y as int, z as int);
    }
    check
}

} // verus!
