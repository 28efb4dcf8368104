//! The chunk mesher: every visible voxel of a chunk as a unit cube.

use vstd::prelude::*;
use crate::block::{is_block_color, BlockID};
use crate::chunk::{
    block_at, cell_x, cell_y, cell_z, in_bounds, lemma_cell_of_linear_index,
    lemma_linear_index_of_cell, Chunk, CHUNK_LAYER, CHUNK_SIZE, CHUNK_VOLUME,
};
use crate::cube::{
    cube, draw_cube, has_vertex_at, lemma_cube_color, lemma_cube_covers_corner,
    lemma_cube_positions, lemma_cube_uv, lemma_cube_vertex, spec_corner, Size, CUBE_VERTICES,
};
use crate::exposure::{
    exposed, is_exposed, is_interior, lemma_enclosed_is_hidden, lemma_exposed_by_neighbour,
    lemma_solid_grid_exposure, on_boundary, visible,
};
use crate::layout::{flat_attributes, flatten, Attribute, VERTEX_STRIDE};
use crate::plane::plane_uvs;
use crate::vertex::{Point, Vertex};

verus! {

/// Number of voxels on the six outer layers of a chunk: all but the
/// inner cube, whose edge is two shorter.
pub const BOUNDARY_VOXELS: usize = 5768;

/// The lattice point at which the cube of the voxel `(x, y, z)` has its
/// origin.
pub open spec fn voxel_origin(x: int, y: int, z: int) -> Point {
    Point { x: x as i32, y: y as i32, z: z as i32 }
}

/// The extent of the cube that a voxel is drawn as.
pub open spec fn unit_size() -> Size {
    Size { width: 1, height: 1, depth: 1 }
}

/// The vertices that the voxel `(x, y, z)` adds to the mesh: none where it
/// is hidden or air, else the unit cube at its coordinates in the colour of
/// its block.
pub open spec fn voxel_vertices(cells: Seq<BlockID>, x: int, y: int, z: int) -> Seq<Vertex> {
    match block_at(cells, x, y, z).color() {
        Some(col) if exposed(cells, x, y, z) => cube(voxel_origin(x, y, z), unit_size(), col),
        _ => Seq::empty(),
    }
}

/// The vertices of the first `n` voxels in row-major order, that is with
/// `x` running fastest, then `y`, then `z`.
pub open spec fn mesh_prefix(cells: Seq<BlockID>, n: nat) -> Seq<Vertex>
    decreases n,
{
    if n == 0 {
        Seq::empty()
    } else {
        let i = (n - 1) as int;
        mesh_prefix(cells, (n - 1) as nat) + voxel_vertices(cells, cell_x(i), cell_y(i), cell_z(i))
    }
}

/// The mesh of a grid: the vertices of all its voxels in row-major order.
pub open spec fn mesh(cells: Seq<BlockID>) -> Seq<Vertex> {
    mesh_prefix(cells, CHUNK_VOLUME as nat)
}

/// Whether `vertex` can stand in the mesh of a chunk: it is a lattice point
/// of the cube that the chunk fills, it shows a corner of the texture, and
/// it has the colour of a block.
pub open spec fn is_mesh_vertex(vertex: Vertex) -> bool {
    &&& 0 <= vertex.position.x <= CHUNK_SIZE
    &&& 0 <= vertex.position.y <= CHUNK_SIZE
    &&& 0 <= vertex.position.z <= CHUNK_SIZE
    &&& vertex.uv.u <= 1
    &&& vertex.uv.v <= 1
    &&& is_block_color(vertex.color)
}

/// How many of the first `n` voxels in row-major order are visible.
pub open spec fn visible_prefix(cells: Seq<BlockID>, n: nat) -> nat
    decreases n,
{
    if n == 0 {
        0
    } else {
        let i = (n - 1) as int;
        visible_prefix(cells, (n - 1) as nat) + if visible(cells, cell_x(i), cell_y(i), cell_z(i)) {
            1nat
        } else {
            0nat
        }
    }
}

/// How many voxels of a grid are visible.
pub open spec fn visible_count(cells: Seq<BlockID>) -> nat {
    visible_prefix(cells, CHUNK_VOLUME as nat)
}

/// The mesh of one chunk: its vertices in drawing order, three to a
/// triangle, and their number. It is built once from a chunk and holds no
/// reference to it.
pub struct ChunkMesh {
    vertices: Vec<Vertex>,
    count: usize,
}

impl View for ChunkMesh {
    type V = Seq<Vertex>;

    closed spec fn view(&self) -> Seq<Vertex> {
        self.vertices@
    }
}

/// The vertices of the voxel `(x, y, z)` of `chunk`: empty where the voxel
/// is hidden or air, else its unit cube.
pub fn draw_voxel(chunk: &Chunk, x: usize, y: usize, z: usize) -> (verts: Vec<Vertex>)
    requires
        in_bounds(x as int, y as int, z as int),
    ensures
        verts@ == voxel_vertices(chunk@, x as int, y as int, z as int),
        verts@.len() == if visible(chunk@, x as int, y as int, z as int) {
            CUBE_VERTICES as nat
        } else {
            0nat
        },
{
    if !is_exposed(chunk, x, y, z) {
        return Vec::new();
    }
    match chunk.get(x, y, z).color() {
        Some(col) => draw_cube(Point::new(x as i32, y as i32, z as i32), Size::new(1, 1, 1), col),
        None => Vec::new(),
    }
}

impl ChunkMesh {
    #[verifier::type_invariant]
    spec fn well_formed(self) -> bool {
        &&& self.count == self.vertices@.len()
        &&& self.vertices@.len() <= CUBE_VERTICES * CHUNK_VOLUME
    }

    /// Meshes `chunk`: visits its voxels with `z` outermost and `x`
    /// innermost, and appends the unit cube of every visible one.
    pub fn new(chunk: &Chunk) -> (chunk_mesh: ChunkMesh)
        ensures
            chunk_mesh@ == mesh(chunk@),
            chunk_mesh@.len() == CUBE_VERTICES * visible_count(chunk@),
            chunk_mesh@.len() % (CUBE_VERTICES as nat) == 0,
            forall|i: int| 0 <= i < chunk_mesh@.len() ==> is_mesh_vertex(#[trigger] chunk_mesh@[i]),
    {
        let mut verts: Vec<Vertex> = Vec::new();
        for z in 0..CHUNK_SIZE
            invariant
                verts@ == mesh_prefix(chunk@, (z * CHUNK_LAYER) as nat),
                verts@.len() == CUBE_VERTICES * visible_prefix(chunk@, (z * CHUNK_LAYER) as nat),
        {
            for y in 0..CHUNK_SIZE
                invariant
                    z < CHUNK_SIZE,
                    verts@ == mesh_prefix(chunk@, (z * CHUNK_LAYER + y * CHUNK_SIZE) as nat),
                    verts@.len() == CUBE_VERTICES * visible_prefix(
                        chunk@,
                        (z * CHUNK_LAYER + y * CHUNK_SIZE) as nat,
                    ),
            {
                for x in 0..CHUNK_SIZE
                    invariant
                        z < CHUNK_SIZE,
                        y < CHUNK_SIZE,
                        verts@ == mesh_prefix(chunk@, (z * CHUNK_LAYER + y * CHUNK_SIZE + x) as nat),
                        verts@.len() == CUBE_VERTICES * visible_prefix(
                            chunk@,
                            (z * CHUNK_LAYER + y * CHUNK_SIZE + x) as nat,
                        ),
                {
                    proof {
                        lemma_cell_of_linear_index(x as int, y as int, z as int);
                    }
                    let mut voxel = draw_voxel(chunk, x, y, z);
                    verts.append(&mut voxel);
                }
            }
        }
        proof {
            lemma_mesh_len(chunk@);
            lemma_mesh_vertices(chunk@);
        }
        let count = verts.len();
        ChunkMesh { vertices: verts, count }
    }

    /// The number of vertices of the mesh.
    pub fn count(&self) -> (n: usize)
        ensures
            n == self@.len(),
    {
        proof {
            use_type_invariant(self);
        }
        self.count
    }

    /// The vertices of the mesh, in drawing order.
    pub fn vertices(&self) -> (verts: &Vec<Vertex>)
        ensures
            verts@ == self@,
    {
        &self.vertices
    }

    /// The mesh as the flat stream that a renderer uploads: eight scalars
    /// for every vertex, in drawing order.
    pub fn flatten(&self) -> (flat: Vec<Attribute>)
        ensures
            flat@ == flat_attributes(self@),
            flat@.len() == VERTEX_STRIDE * self@.len(),
    {
        proof {
            use_type_invariant(self);
        }
        flatten(&self.vertices)
    }
}

/// What a voxel adds to the mesh: a visible voxel adds the thirty-six
/// vertices of the unit cube at its coordinates, all in the colour of its
/// block; any other voxel adds nothing.
pub proof fn lemma_voxel_vertices(cells: Seq<BlockID>, x: int, y: int, z: int)
    ensures
        visible(cells, x, y, z) ==> block_at(cells, x, y, z).color() is Some && voxel_vertices(
            cells,
            x,
            y,
            z,
        ) == cube(voxel_origin(x, y, z), unit_size(), block_at(cells, x, y, z).color().unwrap()),
        !visible(cells, x, y, z) ==> voxel_vertices(cells, x, y, z) == Seq::<Vertex>::empty(),
        voxel_vertices(cells, x, y, z).len() == if visible(cells, x, y, z) {
            CUBE_VERTICES as nat
        } else {
            0nat
        },
        forall|i: int|
            0 <= i < voxel_vertices(cells, x, y, z).len() ==> (#[trigger] voxel_vertices(
                cells,
                x,
                y,
                z,
            )[i]).color == block_at(cells, x, y, z).color().unwrap().rgb(),
{
    if visible(cells, x, y, z) {
        let col = block_at(cells, x, y, z).color().unwrap();
        lemma_cube_vertex(voxel_origin(x, y, z), unit_size(), col, 0);
        lemma_cube_color(voxel_origin(x, y, z), unit_size(), col);
    }
}

/// A visible voxel of the chunk is drawn as the unit cube anchored at its
/// coordinates: each of its vertices stands on a corner of that cube, and
/// each of the eight corners carries a vertex.
pub proof fn lemma_visible_voxel_is_unit_cube(cells: Seq<BlockID>, x: int, y: int, z: int)
    requires
        in_bounds(x, y, z),
        visible(cells, x, y, z),
    ensures
        voxel_vertices(cells, x, y, z).len() == CUBE_VERTICES,
        forall|i: int|
            0 <= i < CUBE_VERTICES ==> ({
                let p = (#[trigger] voxel_vertices(cells, x, y, z)[i]).position;
                &&& p.x == x || p.x == x + 1
                &&& p.y == y || p.y == y + 1
                &&& p.z == z || p.z == z + 1
            }),
        forall|far_x: bool, far_y: bool, far_z: bool|
            has_vertex_at(
                voxel_vertices(cells, x, y, z),
                #[trigger] spec_corner(voxel_origin(x, y, z), unit_size(), far_x, far_y, far_z),
            ),
{
    lemma_voxel_vertices(cells, x, y, z);
    let col = block_at(cells, x, y, z).color().unwrap();
    let pos = voxel_origin(x, y, z);
    lemma_cube_positions(pos, unit_size(), col);
    assert forall|far_x: bool, far_y: bool, far_z: bool|
        has_vertex_at(
            voxel_vertices(cells, x, y, z),
            #[trigger] spec_corner(pos, unit_size(), far_x, far_y, far_z),
        ) by {
        lemma_cube_covers_corner(pos, unit_size(), col, far_x, far_y, far_z);
    }
}

/// Every vertex that a voxel of the chunk adds to the mesh is a lattice
/// point of the cube that the chunk fills, shows a corner of the texture,
/// and has the colour of a block.
pub proof fn lemma_voxel_vertex(cells: Seq<BlockID>, x: int, y: int, z: int, k: int)
    requires
        in_bounds(x, y, z),
        0 <= k < voxel_vertices(cells, x, y, z).len(),
    ensures
        is_mesh_vertex(voxel_vertices(cells, x, y, z)[k]),
{
    lemma_voxel_vertices(cells, x, y, z);
    lemma_visible_voxel_is_unit_cube(cells, x, y, z);
    let block_id = block_at(cells, x, y, z);
    let col = block_id.color().unwrap();
    lemma_cube_uv(voxel_origin(x, y, z), unit_size(), col);
    let vertex = voxel_vertices(cells, x, y, z)[k];
    assert(vertex.uv == plane_uvs()[k % 6]);
    assert(block_id.color() is Some && block_id.color().unwrap().rgb() == vertex.color);
}

/// Every vertex among those of the first `n` voxels is a lattice point of
/// the cube that the chunk fills, shows a corner of the texture, and has
/// the colour of a block.
proof fn lemma_mesh_prefix_vertices(cells: Seq<BlockID>, n: nat)
    requires
        n <= CHUNK_VOLUME,
    ensures
        forall|i: int|
            0 <= i < mesh_prefix(cells, n).len() ==> is_mesh_vertex(
                #[trigger] mesh_prefix(cells, n)[i],
            ),
    decreases n,
{
    if n > 0 {
        let index = (n - 1) as int;
        let before = mesh_prefix(cells, (n - 1) as nat);
        let voxel = voxel_vertices(cells, cell_x(index), cell_y(index), cell_z(index));
        lemma_mesh_prefix_vertices(cells, (n - 1) as nat);
        lemma_linear_index_of_cell(index);
        assert(mesh_prefix(cells, n) == before + voxel);
        assert forall|i: int| 0 <= i < mesh_prefix(cells, n).len() implies is_mesh_vertex(
            #[trigger] mesh_prefix(cells, n)[i],
        ) by {
            if i < before.len() {
                assert(mesh_prefix(cells, n)[i] == before[i]);
            } else {
                let k = i - before.len();
                assert(mesh_prefix(cells, n)[i] == voxel[k]);
                lemma_voxel_vertex(cells, cell_x(index), cell_y(index), cell_z(index), k);
            }
        }
    }
}

/// Every vertex of a mesh is a lattice point of the cube that the chunk
/// fills, shows a corner of the texture, and has the colour of a block.
pub proof fn lemma_mesh_vertices(cells: Seq<BlockID>)
    ensures
        forall|i: int| 0 <= i < mesh(cells).len() ==> is_mesh_vertex(#[trigger] mesh(cells)[i]),
{
    lemma_mesh_prefix_vertices(cells, CHUNK_VOLUME as nat);
}

/// A solid voxel inside the chunk with air in all 26 cells around it is
/// visible, and is drawn as the unit cube anchored at its coordinates.
pub proof fn lemma_isolated_voxel(cells: Seq<BlockID>, x: int, y: int, z: int)
    requires
        is_interior(x, y, z),
        block_at(cells, x, y, z) != BlockID::Air,
        forall|nx: int, ny: int, nz: int|
            x - 1 <= nx <= x + 1 && y - 1 <= ny <= y + 1 && z - 1 <= nz <= z + 1 && (nx != x || ny
                != y || nz != z) ==> #[trigger] block_at(cells, nx, ny, nz) == BlockID::Air,
    ensures
        visible(cells, x, y, z),
        voxel_vertices(cells, x, y, z).len() == CUBE_VERTICES,
        forall|i: int|
            0 <= i < CUBE_VERTICES ==> ({
                let p = (#[trigger] voxel_vertices(cells, x, y, z)[i]).position;
                &&& p.x == x || p.x == x + 1
                &&& p.y == y || p.y == y + 1
                &&& p.z == z || p.z == z + 1
            }),
        forall|far_x: bool, far_y: bool, far_z: bool|
            has_vertex_at(
                voxel_vertices(cells, x, y, z),
                #[trigger] spec_corner(voxel_origin(x, y, z), unit_size(), far_x, far_y, far_z),
            ),
{
    lemma_exposed_by_neighbour(cells, x, y, z, x - 1, y, z);
    lemma_visible_voxel_is_unit_cube(cells, x, y, z);
}

/// The mesh of the first `n` voxels has thirty-six vertices for each
/// visible one among them, and it is the start of the mesh of the first
/// `m` voxels for every `m` from `n` on.
pub proof fn lemma_mesh_prefix(cells: Seq<BlockID>, n: nat, m: nat)
    requires
        n <= m,
    ensures
        mesh_prefix(cells, n).len() == CUBE_VERTICES * visible_prefix(cells, n),
        mesh_prefix(cells, m).len() == CUBE_VERTICES * visible_prefix(cells, m),
        visible_prefix(cells, n) <= visible_prefix(cells, m) <= visible_prefix(cells, n) + (m - n),
        mesh_prefix(cells, n) == mesh_prefix(cells, m).subrange(
            0,
            mesh_prefix(cells, n).len() as int,
        ),
    decreases m,
{
    if n == m {
        if n > 0 {
            lemma_mesh_prefix(cells, (n - 1) as nat, (n - 1) as nat);
            let i = (n - 1) as int;
            lemma_voxel_vertices(cells, cell_x(i), cell_y(i), cell_z(i));
        }
        assert(mesh_prefix(cells, n) =~= mesh_prefix(cells, n).subrange(
            0,
            mesh_prefix(cells, n).len() as int,
        ));
    } else {
        lemma_mesh_prefix(cells, n, (m - 1) as nat);
        let i = (m - 1) as int;
        lemma_voxel_vertices(cells, cell_x(i), cell_y(i), cell_z(i));
        assert(mesh_prefix(cells, n) =~= mesh_prefix(cells, m).subrange(
            0,
            mesh_prefix(cells, n).len() as int,
        ));
    }
}

/// The number of vertices of a mesh is thirty-six times the number of
/// visible voxels, so it is a multiple of thirty-six, and at most
/// thirty-six times the volume of the chunk.
pub proof fn lemma_mesh_len(cells: Seq<BlockID>)
    ensures
        mesh(cells).len() == CUBE_VERTICES * visible_count(cells),
        mesh(cells).len() % (CUBE_VERTICES as nat) == 0,
        visible_count(cells) <= CHUNK_VOLUME,
{
    lemma_mesh_prefix(cells, 0, CHUNK_VOLUME as nat);
}

/// The vertices that the voxel at `index` in row-major order adds stand
/// together in the mesh, behind the thirty-six of every visible voxel
/// before it.
pub proof fn lemma_mesh_voxel(cells: Seq<BlockID>, index: int)
    requires
        0 <= index < CHUNK_VOLUME,
    ensures
        CUBE_VERTICES * visible_prefix(cells, (index + 1) as nat) <= mesh(cells).len(),
        mesh(cells).subrange(
            CUBE_VERTICES * visible_prefix(cells, index as nat),
            CUBE_VERTICES * visible_prefix(cells, (index + 1) as nat),
        ) == voxel_vertices(cells, cell_x(index), cell_y(index), cell_z(index)),
{
    let n = index as nat;
    lemma_mesh_prefix(cells, n, n + 1);
    lemma_mesh_prefix(cells, n + 1, CHUNK_VOLUME as nat);
    let whole = mesh(cells);
    let upto = mesh_prefix(cells, n + 1);
    let voxel = voxel_vertices(cells, cell_x(index), cell_y(index), cell_z(index));
    let before = mesh_prefix(cells, n);
    assert(upto == before + voxel);
    let start = before.len() as int;
    let end = upto.len() as int;
    assert forall|k: int| 0 <= k < voxel.len() implies whole.subrange(start, end)[k] == voxel[k] by {
        assert(whole.subrange(0, end)[start + k] == whole[start + k]);
        assert(upto[start + k] == voxel[k]);
    }
    assert(whole.subrange(start, end) =~= voxel);
}

/// A voxel inside the chunk whose 27 neighbours, itself included, are all
/// solid adds nothing to the mesh.
pub proof fn lemma_enclosed_voxel(cells: Seq<BlockID>, x: int, y: int, z: int)
    requires
        is_interior(x, y, z),
        forall|nx: int, ny: int, nz: int|
            x - 1 <= nx <= x + 1 && y - 1 <= ny <= y + 1 && z - 1 <= nz <= z + 1
                ==> #[trigger] block_at(cells, nx, ny, nz) != BlockID::Air,
    ensures
        !visible(cells, x, y, z),
        voxel_vertices(cells, x, y, z) == Seq::<Vertex>::empty(),
{
    lemma_enclosed_is_hidden(cells, x, y, z);
    lemma_voxel_vertices(cells, x, y, z);
}

/// In a grid without air a voxel adds its cube to the mesh exactly when it
/// lies on the boundary; the mesh has thirty-six vertices for each voxel of
/// the boundary and none for the others.
pub proof fn lemma_solid_grid(cells: Seq<BlockID>)
    requires
        cells.len() == CHUNK_VOLUME,
        forall|i: int| 0 <= i < CHUNK_VOLUME ==> cells[i] != BlockID::Air,
    ensures
        forall|x: int, y: int, z: int|
            in_bounds(x, y, z) ==> #[trigger] voxel_vertices(cells, x, y, z).len() == if on_boundary(
                x,
                y,
                z,
            ) {
                CUBE_VERTICES as nat
            } else {
                0nat
            },
        visible_count(cells) == BOUNDARY_VOXELS,
        mesh(cells).len() == CUBE_VERTICES * BOUNDARY_VOXELS,
{
    assert forall|x: int, y: int, z: int| in_bounds(x, y, z) implies #[trigger] voxel_vertices(
        cells,
        x,
        y,
        z,
    ).len() == if on_boundary(x, y, z) {
        CUBE_VERTICES as nat
    } else {
        0nat
    } by {
        lemma_solid_grid_exposure(cells, x, y, z);
        lemma_voxel_vertices(cells, x, y, z);
    }
    lemma_solid_layers(cells, CHUNK_SIZE as int);
    lemma_mesh_len(cells);
}

/// In a grid without air, the visible voxels among the first `x` of the
/// row at height `y` and depth `z`: all of them in a row of the boundary,
/// else the two ends of the row.
proof fn lemma_solid_row(cells: Seq<BlockID>, z: int, y: int, x: int)
    requires
        cells.len() == CHUNK_VOLUME,
        forall|i: int| 0 <= i < CHUNK_VOLUME ==> cells[i] != BlockID::Air,
        0 <= z < CHUNK_SIZE,
        0 <= y < CHUNK_SIZE,
        0 <= x <= CHUNK_SIZE,
    ensures
        visible_prefix(cells, (z * CHUNK_LAYER + y * CHUNK_SIZE + x) as nat) == visible_prefix(
            cells,
            (z * CHUNK_LAYER + y * CHUNK_SIZE) as nat,
        ) + if z == 0 || z == CHUNK_SIZE - 1 || y == 0 || y == CHUNK_SIZE - 1 {
            x
        } else if x == 0 {
            0
        } else if x < CHUNK_SIZE {
            1
        } else {
            2
        },
    decreases x,
{
    if x > 0 {
        lemma_solid_row(cells, z, y, x - 1);
        lemma_cell_of_linear_index(x - 1, y, z);
        lemma_solid_grid_exposure(cells, x - 1, y, z);
    }
}

/// In a grid without air, the visible voxels among the first `y` rows of
/// the layer `z`: all of them in a layer of the boundary, else the first
/// and the last row and the two ends of every row between.
proof fn lemma_solid_layer(cells: Seq<BlockID>, z: int, y: int)
    requires
        cells.len() == CHUNK_VOLUME,
        forall|i: int| 0 <= i < CHUNK_VOLUME ==> cells[i] != BlockID::Air,
        0 <= z < CHUNK_SIZE,
        0 <= y <= CHUNK_SIZE,
    ensures
        visible_prefix(cells, (z * CHUNK_LAYER + y * CHUNK_SIZE) as nat) == visible_prefix(
            cells,
            (z * CHUNK_LAYER) as nat,
        ) + if z == 0 || z == CHUNK_SIZE - 1 {
            y * CHUNK_SIZE
        } else if y == 0 {
            0
        } else if y < CHUNK_SIZE {
            CHUNK_SIZE + 2 * (y - 1)
        } else {
            2 * CHUNK_SIZE + 2 * (CHUNK_SIZE - 2)
        },
    decreases y,
{
    if y > 0 {
        lemma_solid_layer(cells, z, y - 1);
        lemma_solid_row(cells, z, y - 1, CHUNK_SIZE as int);
    }
}

/// In a grid without air, the visible voxels among the first `z` layers:
/// the whole first and last layer, and the rim of every layer between.
proof fn lemma_solid_layers(cells: Seq<BlockID>, z: int)
    requires
        cells.len() == CHUNK_VOLUME,
        forall|i: int| 0 <= i < CHUNK_VOLUME ==> cells[i] != BlockID::Air,
        0 <= z <= CHUNK_SIZE,
    ensures
        visible_prefix(cells, (z * CHUNK_LAYER) as nat) == if z == 0 {
            0
        } else if z < CHUNK_SIZE {
            CHUNK_LAYER + 124 * (z - 1)
        } else {
            2 * CHUNK_LAYER + 124 * (CHUNK_SIZE - 2)
        },
    decreases z,
{
    if z > 0 {
        lemma_solid_layers(cells, z - 1);
        lemma_solid_layer(cells, z - 1, CHUNK_SIZE as int);
    }
}

/// A grid of air has an empty mesh.
pub proof fn lemma_mesh_of_air(cells: Seq<BlockID>)
    requires
        forall|i: int| 0 <= i < CHUNK_VOLUME ==> cells[i] == BlockID::Air,
    ensures
        visible_count(cells) == 0,
        mesh(cells) == Seq::<Vertex>::empty(),
{
    lemma_air_prefix(cells, CHUNK_VOLUME as nat);
}

/// Among the first `n` voxels of a grid of air none is visible.
proof fn lemma_air_prefix(cells: Seq<BlockID>, n: nat)
    requires
        n <= CHUNK_VOLUME,
        forall|i: int| 0 <= i < CHUNK_VOLUME ==> cells[i] == BlockID::Air,
    ensures
        visible_prefix(cells, n) == 0,
        mesh_prefix(cells, n) == Seq::<Vertex>::empty(),
    decreases n,
{
    if n > 0 {
        lemma_air_prefix(cells, (n - 1) as nat);
        lemma_linear_index_of_cell((n - 1) as int);
    }
}

/// Meshing is a function of the cells alone: the meshes of two chunks that
/// hold the same blocks have the same vertices in the same order, and so
/// the same flat stream.
pub proof fn lemma_mesh_deterministic(a: Chunk, b: Chunk, first: ChunkMesh, second: ChunkMesh)
    requires
        a@ == b@,
        first@ == mesh(a@),
        second@ == mesh(b@),
    ensures
        first@ == second@,
        flat_attributes(first@) == flat_attributes(second@),
{
}

} // verus!
