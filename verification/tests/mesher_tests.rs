use std::cell::Cell;

use vstd::prelude::{int, Seq};

use wgpu_mc::block::BlockstateKey;
use wgpu_mc::chunk::{
    bake_layer, is_block_not_fully_opaque, BlockStateProvider, Chunk, LightLevel, RenderLayer,
    CHUNK_VOLUME, SECTION_VOLUME,
};
use wgpu_mc::chunk_alloc::{range_allocator_new, total_available, ChunkBakeError, ChunkManager};
use wgpu_mc::mesh::{Block, BlockManager, BlockMeshVertex, BlockModelFaces, Face, ModelMesh, Vertex};
use wgpu_mc::ChunkBlockState;

fn vertex_at(position: [i32; 3]) -> BlockMeshVertex {
    BlockMeshVertex {
        position,
        tex_coords: [0, 0],
        normal: [0, 1, 0],
        animation_uv_offset: 0,
    }
}

/// A full-cube element whose up face holds the baked corner order d, c, g, h.
fn cube_faces() -> BlockModelFaces {
    let mut vertices = [vertex_at([0, 0, 0]); 24];
    // the up face slots, in stored winding order
    vertices[16] = vertex_at([16, 16, 0]);
    vertices[17] = vertex_at([0, 16, 0]);
    vertices[18] = vertex_at([0, 16, 16]);
    vertices[19] = vertex_at([16, 16, 16]);
    BlockModelFaces {
        vertices,
        south: Some(Face { vert_index: 0, tint_index: -1 }),
        west: Some(Face { vert_index: 4, tint_index: -1 }),
        north: Some(Face { vert_index: 8, tint_index: -1 }),
        east: Some(Face { vert_index: 12, tint_index: -1 }),
        up: Some(Face { vert_index: 16, tint_index: -1 }),
        down: Some(Face { vert_index: 20, tint_index: -1 }),
        cube: true,
    }
}

fn manager(is_cube: bool, transparent: bool) -> BlockManager {
    let mesh = ModelMesh {
        mesh: vec![cube_faces()],
        is_cube,
        transparent,
    };
    BlockManager {
        blocks: vec![Block { models: vec![mesh] }],
    }
}

const KEY: BlockstateKey = BlockstateKey { block: 0, augment: 0 };

/// A world holding the blocks in `blocks`; everything else is air.
#[derive(Debug)]
struct MapProvider {
    blocks: Vec<(i32, i16, i32)>,
    state_calls: Cell<usize>,
    empty: bool,
}

impl BlockStateProvider for MapProvider {
    fn spec_state(&self, _x: int, _y: int, _z: int) -> ChunkBlockState {
        unreachable!()
    }

    fn spec_section_empty(&self, _index: int) -> bool {
        unreachable!()
    }

    fn spec_light_level(&self, _x: int, _y: int, _z: int) -> LightLevel {
        unreachable!()
    }

    fn spec_block_color(&self, _x: int, _y: int, _z: int, _tint_index: int) -> [u8; 3] {
        unreachable!()
    }

    fn get_state(&self, x: i32, y: i16, z: i32) -> ChunkBlockState {
        self.state_calls.set(self.state_calls.get() + 1);
        if self.blocks.iter().any(|&(bx, by, bz)| bx == x && by == y && bz == z) {
            ChunkBlockState::State(KEY)
        } else {
            ChunkBlockState::Air
        }
    }

    fn get_light_level(&self, _x: i32, _y: i16, _z: i32) -> LightLevel {
        LightLevel::from_sky_and_block(15, 15)
    }

    fn get_block_color(&self, _x: i32, _y: i16, _z: i32, _tint_index: i32) -> [u8; 3] {
        [255, 255, 255]
    }

    fn is_section_empty(&self, _index: usize) -> bool {
        self.empty
    }
}

struct PassthroughLayer;

impl RenderLayer for PassthroughLayer {
    fn spec_filter(&self, _key: BlockstateKey) -> bool {
        unreachable!()
    }

    fn spec_map(&self, _v: BlockMeshVertex, _x: int, _y: int, _z: int) -> Vertex {
        unreachable!()
    }

    fn spec_name(&self) -> Seq<char> {
        unreachable!()
    }

    fn filter(&self, _key: BlockstateKey) -> bool {
        true
    }

    fn mapper(&self, v: &BlockMeshVertex, x: i32, y: i32, z: i32) -> Vertex {
        Vertex {
            position: [
                v.position[0] + 16 * x,
                v.position[1] + 16 * y,
                v.position[2] + 16 * z,
            ],
            tex_coords: v.tex_coords,
            normal: v.normal,
            color: [255, 255, 255],
            light: 255,
            animation_uv_offset: v.animation_uv_offset,
        }
    }

    fn name(&self) -> String {
        "terrain".to_owned()
    }
}

fn provider_with(blocks: Vec<(i32, i16, i32)>) -> MapProvider {
    MapProvider {
        blocks,
        state_calls: Cell::new(0),
        empty: false,
    }
}

#[test]
fn empty_sections_emit_nothing_and_skip_state_queries() {
    let bm = manager(true, false);
    let chunk = Chunk::new([0, 0]);
    let provider = MapProvider {
        blocks: vec![(0, 0, 0)],
        state_calls: Cell::new(0),
        empty: true,
    };
    let verts = bake_layer(&bm, &chunk, &PassthroughLayer, &provider);
    assert_eq!(verts.len(), 0);
    // the skip is observable: no per-voxel state query was made
    assert_eq!(provider.state_calls.get(), 0);
}

#[test]
fn surrounded_cube_is_fully_culled() {
    let bm = manager(true, false);
    let chunk = Chunk::new([0, 0]);
    // a cube at (5,5,5) walled in by opaque neighbours on all six sides
    let provider = provider_with(vec![
        (5, 5, 5),
        (4, 5, 5),
        (6, 5, 5),
        (5, 4, 5),
        (5, 6, 5),
        (5, 5, 4),
        (5, 5, 6),
    ]);
    let verts = bake_layer(&bm, &chunk, &PassthroughLayer, &provider);
    // every face that touches another cube is culled: the fully surrounded
    // center contributes nothing (its 6 faces would add 24 vertices), and
    // each of the six neighbours keeps its 5 open faces
    assert_eq!(verts.len(), 6 * 5 * 4);
}

#[test]
fn single_open_face_emits_up_quad_in_winding_order() {
    let bm = manager(true, false);
    let chunk = Chunk::new([0, 0]);
    // a cube at (5,5,5) with every neighbour opaque except above
    let provider = provider_with(vec![
        (5, 5, 5),
        (4, 5, 5),
        (6, 5, 5),
        (5, 4, 5),
        (5, 5, 4),
        (5, 5, 6),
    ]);
    let verts = bake_layer(&bm, &chunk, &PassthroughLayer, &provider);
    // the five neighbours each keep five open faces; the centre emits
    // exactly its up face
    assert_eq!(verts.len(), (5 * 5 + 1) * 4);
    // the centre's four up-face vertices appear consecutively, in the
    // stored winding order d, c, g, h
    let quad: Vec<[i32; 3]> = verts.iter().map(|v| v.position).collect();
    assert!(quad
        .windows(4)
        .any(|w| w == [[96, 96, 80], [80, 96, 80], [80, 96, 96], [96, 96, 96]]));
}

#[test]
fn complex_mesh_is_never_culled() {
    let bm = manager(false, false);
    let chunk = Chunk::new([0, 0]);
    let provider = provider_with(vec![
        (5, 5, 5),
        (4, 5, 5),
        (6, 5, 5),
        (5, 4, 5),
        (5, 6, 5),
        (5, 5, 4),
        (5, 5, 6),
    ]);
    let verts = bake_layer(&bm, &chunk, &PassthroughLayer, &provider);
    // no culling at all: all 7 blocks emit all 6 faces
    assert_eq!(verts.len(), 7 * 24);
}

#[test]
fn opacity_follows_registration_shape_and_transparency() {
    let opaque = manager(true, false);
    let transparent = manager(true, true);
    let partial = manager(false, false);
    let provider = provider_with(vec![(0, 0, 0)]);
    assert!(!is_block_not_fully_opaque(&opaque, &provider, 0, 0, 0));
    assert!(is_block_not_fully_opaque(&transparent, &provider, 0, 0, 0));
    // partial geometry cannot obscure a whole face, opaque or not
    assert!(is_block_not_fully_opaque(&partial, &provider, 0, 0, 0));
    // air neighbours never obscure
    assert!(is_block_not_fully_opaque(&opaque, &provider, 9, 9, 9));
}

#[test]
fn grid_volume_constants_agree() {
    assert_eq!(CHUNK_VOLUME, 98304);
    assert_eq!(SECTION_VOLUME, 4096);
}

#[test]
fn rebake_keeps_vertices_and_free_capacity() {
    let bm = manager(true, false);
    let mut chunk = Chunk::new([0, 0]);
    let provider = provider_with(vec![(5, 5, 5), (6, 5, 5)]);
    let layers = vec![PassthroughLayer];
    let mut manager = ChunkManager::new();

    let before = total_available(&manager.chunk_allocation.allocator);
    let first = chunk
        .bake_chunk(&mut manager.chunk_allocation.allocator, &layers, &bm, &provider)
        .unwrap();
    let after_first = total_available(&manager.chunk_allocation.allocator);
    let second = chunk
        .bake_chunk(&mut manager.chunk_allocation.allocator, &layers, &bm, &provider)
        .unwrap();
    let after_second = total_available(&manager.chunk_allocation.allocator);

    // identical inputs give a content-equal vertex stream
    assert_eq!(first.len(), 1);
    assert_eq!(second.len(), 1);
    assert_eq!(first[0].vertices, second[0].vertices);
    assert!(!first[0].vertices.is_empty());
    // the first range was released and the second granted: nothing leaked
    assert_eq!(after_first, after_second);
    assert!(after_first < before);
    assert_eq!(chunk.baked_layers.len(), 1);
    assert_eq!(chunk.baked_layers[0].0, "terrain");
}

#[test]
fn all_air_chunk_records_empty_ranges_without_allocating() {
    let bm = manager(true, false);
    let mut chunk = Chunk::new([3, -2]);
    let provider = provider_with(vec![]);
    let layers = vec![PassthroughLayer];
    let mut manager = ChunkManager::new();

    let before = total_available(&manager.chunk_allocation.allocator);
    let uploads = chunk
        .bake_chunk(&mut manager.chunk_allocation.allocator, &layers, &bm, &provider)
        .unwrap();
    assert_eq!(uploads.len(), 1);
    assert!(uploads[0].vertices.is_empty());
    assert_eq!(chunk.baked_layers[0].1, (0, 0));
    assert_eq!(total_available(&manager.chunk_allocation.allocator), before);
}

#[test]
fn exhausted_buffer_surfaces_the_failure() {
    let bm = manager(true, false);
    let mut chunk = Chunk::new([0, 0]);
    let provider = provider_with(vec![(5, 5, 5)]);
    let layers = vec![PassthroughLayer];
    // a buffer of 64 bytes cannot hold one cube's 24 vertices
    let mut alloc = range_allocator_new(64);
    match chunk.bake_chunk(&mut alloc, &layers, &bm, &provider) {
        Err(ChunkBakeError::BufferExhausted(free)) => assert_eq!(free, 64),
        _ => panic!("expected buffer exhaustion"),
    }
    // the failed bake holds no ranges and leaks nothing
    assert!(chunk.baked_layers.is_empty());
    assert_eq!(total_available(&alloc), 64);
}
