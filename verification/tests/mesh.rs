use voxel_mesh::{
    draw_cube, draw_voxel, is_exposed, is_on_boundary, BlockID, Chunk, ChunkMesh, Color, Point,
    Rgb, Size, Vertex, BOUNDARY_VOXELS, CHUNK_SIZE,
};

const WHITE: Rgb = Rgb { r: 255, g: 255, b: 255 };
const CYAN: Rgb = Rgb { r: 0, g: 255, b: 255 };

fn solid(id: BlockID) -> Chunk {
    let mut chunk = Chunk::new();
    for z in 0..CHUNK_SIZE {
        chunk.fill_layer(z, id);
    }
    chunk
}

fn unit_cube(x: i32, y: i32, z: i32, col: Color) -> Vec<Vertex> {
    draw_cube(Point::new(x, y, z), Size::new(1, 1, 1), col)
}

#[test]
fn empty_chunk_has_no_vertices() {
    let chunk = Chunk::new();
    let mesh = ChunkMesh::new(&chunk);
    assert_eq!(mesh.count(), 0);
    assert!(mesh.vertices().is_empty());
    assert!(mesh.flatten().is_empty());
}

#[test]
fn solid_chunk_draws_its_boundary_only() {
    let chunk = solid(BlockID::Dirt);
    let mesh = ChunkMesh::new(&chunk);
    // 32^3 - 30^3 voxels lie on the boundary
    assert_eq!(mesh.count(), (32 * 32 * 32 - 30 * 30 * 30) * 36);
    assert_eq!(mesh.count(), 207_648);
    assert_eq!(BOUNDARY_VOXELS, 32 * 32 * 32 - 30 * 30 * 30);
    assert_eq!(mesh.count(), BOUNDARY_VOXELS * 36);
    for z in 0..CHUNK_SIZE {
        for y in 0..CHUNK_SIZE {
            for x in 0..CHUNK_SIZE {
                let edge = x == 0 || y == 0 || z == 0 || x == 31 || y == 31 || z == 31;
                assert_eq!(is_exposed(&chunk, x, y, z), edge);
                assert_eq!(draw_voxel(&chunk, x, y, z).len(), if edge { 36 } else { 0 });
            }
        }
    }
}

#[test]
fn enclosed_voxel_draws_nothing() {
    let chunk = solid(BlockID::Stone);
    assert!(!is_exposed(&chunk, 1, 1, 1));
    assert!(!is_exposed(&chunk, 30, 30, 30));
    assert!(!is_exposed(&chunk, 15, 16, 17));
    assert!(draw_voxel(&chunk, 1, 1, 1).is_empty());
    assert!(draw_voxel(&chunk, 15, 16, 17).is_empty());
}

#[test]
fn isolated_voxel_is_a_unit_cube() {
    let mut chunk = Chunk::new();
    chunk.set(5, 6, 7, BlockID::Dirt);
    assert!(is_exposed(&chunk, 5, 6, 7));
    let mesh = ChunkMesh::new(&chunk);
    assert_eq!(mesh.count(), 36);
    assert_eq!(mesh.vertices(), &unit_cube(5, 6, 7, Color::new(255, 255, 255, 255)));
    let mut corners: Vec<Point> = Vec::new();
    for v in mesh.vertices() {
        let p = v.position;
        assert!(p.x == 5 || p.x == 6);
        assert!(p.y == 6 || p.y == 7);
        assert!(p.z == 7 || p.z == 8);
        assert_eq!(v.color, WHITE);
        if !corners.contains(&p) {
            corners.push(p);
        }
    }
    assert_eq!(corners.len(), 8);
    assert_eq!(mesh.vertices()[0].position, Point::new(5, 6, 7));
}

#[test]
fn vertex_count_is_a_multiple_of_thirty_six() {
    let mut chunk = Chunk::new();
    let mut seed: u32 = 12345;
    let mut solid_cells = 0;
    for z in 0..CHUNK_SIZE {
        for y in 0..CHUNK_SIZE {
            for x in 0..CHUNK_SIZE {
                seed = seed.wrapping_mul(1_103_515_245).wrapping_add(12_345);
                let id = match (seed >> 16) % 3 {
                    0 => BlockID::Air,
                    1 => BlockID::Dirt,
                    _ => BlockID::Stone,
                };
                if id != BlockID::Air {
                    solid_cells += 1;
                }
                chunk.set(x, y, z, id);
            }
        }
    }
    let mesh = ChunkMesh::new(&chunk);
    assert_eq!(mesh.count() % 36, 0);
    assert_eq!(mesh.count(), mesh.vertices().len());
    assert!(mesh.count() <= solid_cells * 36);
    let mut visible = 0;
    for z in 0..CHUNK_SIZE {
        for y in 0..CHUNK_SIZE {
            for x in 0..CHUNK_SIZE {
                if is_exposed(&chunk, x, y, z) && chunk.get(x, y, z) != BlockID::Air {
                    visible += 1;
                }
            }
        }
    }
    assert_eq!(mesh.count(), visible * 36);
}

#[test]
fn meshing_twice_gives_the_same_buffer() {
    let mut chunk = Chunk::new();
    for i in 0..16 {
        chunk.fill_layer(i * 2, BlockID::Dirt);
        chunk.fill_layer(i * 2 + 1, BlockID::Stone);
    }
    chunk.set(10, 10, 10, BlockID::Air);
    let first = ChunkMesh::new(&chunk);
    let second = ChunkMesh::new(&chunk);
    assert_eq!(first.count(), second.count());
    assert_eq!(first.vertices(), second.vertices());
    assert_eq!(first.flatten(), second.flatten());
}

#[test]
fn voxels_are_drawn_with_x_fastest_and_z_slowest() {
    let mut chunk = Chunk::new();
    chunk.set(0, 0, 2, BlockID::Dirt);
    chunk.set(1, 2, 1, BlockID::Stone);
    chunk.set(3, 1, 1, BlockID::Dirt);
    chunk.set(2, 1, 1, BlockID::Stone);
    let mesh = ChunkMesh::new(&chunk);
    let white = Color::new(255, 255, 255, 255);
    let cyan = Color::new(0, 255, 255, 255);
    let mut want: Vec<Vertex> = Vec::new();
    want.extend(unit_cube(2, 1, 1, cyan));
    want.extend(unit_cube(3, 1, 1, white));
    want.extend(unit_cube(1, 2, 1, cyan));
    want.extend(unit_cube(0, 0, 2, white));
    assert_eq!(mesh.count(), 4 * 36);
    assert_eq!(mesh.vertices(), &want);
}

#[test]
fn block_type_decides_the_colour() {
    let mut chunk = Chunk::new();
    chunk.set(4, 4, 4, BlockID::Dirt);
    chunk.set(8, 8, 8, BlockID::Stone);
    let mesh = ChunkMesh::new(&chunk);
    assert_eq!(mesh.count(), 72);
    for v in &mesh.vertices()[..36] {
        assert_eq!(v.color, WHITE);
    }
    for v in &mesh.vertices()[36..] {
        assert_eq!(v.color, CYAN);
    }
}

#[test]
fn air_in_a_diagonal_neighbour_exposes_a_voxel() {
    let mut chunk = solid(BlockID::Dirt);
    chunk.set(6, 6, 6, BlockID::Air);
    // every cell that differs by at most one in each coordinate is exposed
    assert!(is_exposed(&chunk, 5, 5, 5));
    assert!(is_exposed(&chunk, 7, 7, 7));
    assert!(is_exposed(&chunk, 5, 7, 6));
    assert!(is_exposed(&chunk, 6, 6, 5));
    // the cell of air counts as its own neighbour, and draws nothing
    assert!(is_exposed(&chunk, 6, 6, 6));
    assert!(draw_voxel(&chunk, 6, 6, 6).is_empty());
    // two steps away nothing changes
    assert!(!is_exposed(&chunk, 4, 6, 6));
    assert!(!is_exposed(&chunk, 8, 8, 8));
    assert!(!is_exposed(&chunk, 6, 4, 6));
    let mesh = ChunkMesh::new(&chunk);
    assert_eq!(mesh.count(), 207_648 + 26 * 36);
}

#[test]
fn boundary_voxels_are_exposed_without_air() {
    let chunk = solid(BlockID::Stone);
    assert!(is_exposed(&chunk, 0, 15, 15));
    assert!(is_exposed(&chunk, 31, 15, 15));
    assert!(is_exposed(&chunk, 15, 0, 15));
    assert!(is_exposed(&chunk, 15, 31, 15));
    assert!(is_exposed(&chunk, 15, 15, 0));
    assert!(is_exposed(&chunk, 15, 15, 31));
    assert!(is_exposed(&chunk, 0, 0, 0));
    assert!(is_exposed(&chunk, 31, 31, 31));
    assert_eq!(draw_voxel(&chunk, 31, 31, 31).len(), 36);
    assert_eq!(draw_voxel(&chunk, 0, 0, 0), unit_cube(0, 0, 0, Color::new(0, 255, 255, 255)));
}

#[test]
fn boundary_is_the_six_outer_layers() {
    assert!(is_on_boundary(0, 5, 5));
    assert!(is_on_boundary(5, 0, 5));
    assert!(is_on_boundary(5, 5, 0));
    assert!(is_on_boundary(31, 5, 5));
    assert!(is_on_boundary(5, 31, 5));
    assert!(is_on_boundary(5, 5, 31));
    assert!(!is_on_boundary(1, 1, 1));
    assert!(!is_on_boundary(30, 30, 30));
    assert!(!is_on_boundary(16, 1, 30));
}

#[test]
fn air_on_the_boundary_draws_nothing() {
    let chunk = Chunk::new();
    assert!(is_exposed(&chunk, 0, 0, 0));
    assert!(draw_voxel(&chunk, 0, 0, 0).is_empty());
    assert!(is_exposed(&chunk, 12, 12, 12));
    assert!(draw_voxel(&chunk, 12, 12, 12).is_empty());
}

#[test]
fn layered_terrain() {
    let mut chunk = Chunk::new();
    for i in 0..16 {
        chunk.fill_layer(i * 2, BlockID::Dirt);
        chunk.fill_layer(i * 2 + 1, BlockID::Stone);
    }
    let mesh = ChunkMesh::new(&chunk);
    assert_eq!(mesh.count(), 207_648);
    let verts = mesh.vertices();
    // layer 0 is dirt and lies on the boundary: all of its 1024 voxels
    let layer0 = 1024 * 36;
    for v in &verts[..layer0] {
        assert_eq!(v.color, WHITE);
        assert!(v.position.z == 0 || v.position.z == 1);
    }
    // layer 1 is stone: the 32 * 32 - 30 * 30 voxels of its rim
    let layer1 = (32 * 32 - 30 * 30) * 36;
    for v in &verts[layer0..layer0 + layer1] {
        assert_eq!(v.color, CYAN);
        assert!(v.position.z == 1 || v.position.z == 2);
    }
    assert_eq!(verts[layer0 + layer1].color, WHITE);
    assert_eq!(verts[layer0 + layer1].position, Point::new(0, 0, 2));
    assert_eq!(verts[0].position, Point::new(0, 0, 0));
    assert_eq!(verts[verts.len() - 1].position, Point::new(32, 31, 32));
}

#[test]
fn mesh_does_not_follow_later_edits_of_the_chunk() {
    let mut chunk = Chunk::new();
    chunk.set(9, 9, 9, BlockID::Stone);
    let mesh = ChunkMesh::new(&chunk);
    chunk.set(9, 9, 9, BlockID::Air);
    chunk.set(1, 1, 1, BlockID::Dirt);
    assert_eq!(mesh.count(), 36);
    assert_eq!(mesh.vertices()[0].position, Point::new(9, 9, 9));
    assert_eq!(mesh.vertices()[0].color, CYAN);
}

#[test]
fn every_vertex_lies_in_the_chunk() {
    let mut chunk = Chunk::new();
    let mut seed: u32 = 99;
    for z in 0..CHUNK_SIZE {
        for y in 0..CHUNK_SIZE {
            for x in 0..CHUNK_SIZE {
                seed = seed.wrapping_mul(1_664_525).wrapping_add(1_013_904_223);
                let id = match (seed >> 24) % 4 {
                    0 => BlockID::Dirt,
                    1 => BlockID::Stone,
                    _ => BlockID::Air,
                };
                chunk.set(x, y, z, id);
            }
        }
    }
    let mesh = ChunkMesh::new(&chunk);
    assert!(mesh.count() > 0);
    for v in mesh.vertices() {
        assert!(0 <= v.position.x && v.position.x <= 32);
        assert!(0 <= v.position.y && v.position.y <= 32);
        assert!(0 <= v.position.z && v.position.z <= 32);
        assert!(v.uv.u <= 1 && v.uv.v <= 1);
        assert!(v.color == WHITE || v.color == CYAN);
    }
}
