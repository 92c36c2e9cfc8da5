use wgpu_mc::block::BlockstateKey;
use wgpu_mc::chunk::LightLevel;
use wgpu_mc::chunk::{
    bake_layer, BasicRenderLayer, BlockStateProvider, Chunk, ChunkSection,
    SimpleBlockstateProvider, SECTION_VOLUME,
};
use wgpu_mc::mesh::{Block, BlockManager, BlockMeshVertex, BlockModelFaces, Face, ModelMesh};
use wgpu_mc::state::{update_surface_size, ChunkUpdateQueue, Matrices, SurfaceConfig, WindowSize};
use wgpu_mc::ChunkBlockState;

#[test]
fn pack_unpack_round_trip() {
    let cases = [
        (0u16, 0u16),
        (1, 2),
        (0xffff, 0xffff),
        (0xabcd, 0x1234),
        (42, 0),
        (0, 65535),
    ];
    for (block, augment) in cases {
        let key = BlockstateKey { block, augment };
        assert_eq!(BlockstateKey::unpack(key.pack()), key);
    }
}

#[test]
fn pack_layout_is_block_high_augment_low() {
    let key = BlockstateKey {
        block: 0x00ab,
        augment: 0x00cd,
    };
    assert_eq!(key.pack(), 0x00ab_00cd);
}

#[test]
fn key_from_tuple_and_from_packed() {
    let key = BlockstateKey::from((7u16, 9u16));
    assert_eq!(key.block, 7);
    assert_eq!(key.augment, 9);
    let packed = key.pack();
    assert_eq!(BlockstateKey::from(packed), key);
}

#[test]
fn air_is_air() {
    assert!(ChunkBlockState::Air.is_air());
    let key = BlockstateKey {
        block: 1,
        augment: 0,
    };
    assert!(!ChunkBlockState::State(key).is_air());
}

#[test]
fn light_level_packs_nibbles() {
    let l = LightLevel::from_sky_and_block(15, 15);
    assert_eq!(l.byte, 255);
    assert_eq!(l.sky(), 15);
    assert_eq!(l.block(), 15);
    let l2 = LightLevel::from_sky_and_block(3, 9);
    assert_eq!(l2.sky(), 3);
    assert_eq!(l2.block(), 9);
}

#[test]
fn surface_size_rejects_zero_dimensions() {
    let config = SurfaceConfig {
        width: 800,
        height: 600,
    };
    assert_eq!(
        update_surface_size(
            config,
            WindowSize {
                width: 0,
                height: 100
            }
        ),
        None
    );
    assert_eq!(
        update_surface_size(
            config,
            WindowSize {
                width: 100,
                height: 0
            }
        ),
        None
    );
    assert_eq!(
        update_surface_size(
            config,
            WindowSize {
                width: 1024,
                height: 768
            }
        ),
        Some(SurfaceConfig {
            width: 1024,
            height: 768
        })
    );
}

#[test]
fn update_queue_drains_in_order() {
    let mut q = ChunkUpdateQueue::new();
    q.queue_write(1, vec![1, 2, 3]);
    q.queue_write(2, vec![4]);
    let drained = q.drain();
    assert_eq!(drained, vec![(1u64, vec![1u8, 2, 3]), (2u64, vec![4u8])]);
    assert!(q.drain().is_empty());
}

#[test]
fn simple_provider_and_basic_layer_bake_one_cube() {
    let v = BlockMeshVertex {
        position: [0, 0, 0],
        tex_coords: [0, 0],
        normal: [0, 1, 0],
        animation_uv_offset: 0,
    };
    let faces = BlockModelFaces {
        vertices: [v; 24],
        south: Some(Face { vert_index: 0, tint_index: -1 }),
        west: Some(Face { vert_index: 4, tint_index: -1 }),
        north: Some(Face { vert_index: 8, tint_index: -1 }),
        east: Some(Face { vert_index: 12, tint_index: -1 }),
        up: Some(Face { vert_index: 16, tint_index: -1 }),
        down: Some(Face { vert_index: 20, tint_index: -1 }),
        cube: true,
    };
    let bm = BlockManager {
        blocks: vec![Block {
            models: vec![ModelMesh { mesh: vec![faces], is_cube: true, transparent: false }],
        }],
    };
    let key = BlockstateKey { block: 0, augment: 0 };
    let world = SimpleBlockstateProvider { key, tinted_block: 0 };
    let layer = BasicRenderLayer {
        layer_name: "terrain".to_owned(),
        color: [39, 114, 40],
        light: 255,
    };
    let chunk = Chunk::new([0, 0]);
    // the single block at the origin has six air neighbours: all faces show
    let verts = bake_layer(&bm, &chunk, &layer, &world);
    assert_eq!(verts.len(), 24);
    assert!(verts.iter().all(|v| v.color == [39, 114, 40] && v.light == 255));
    // the provider tints its special block and nothing else
    assert_eq!(world.get_block_color(0, 0, 0, -1), [39, 114, 40]);
    assert_eq!(world.get_block_color(1, 0, 0, -1), [255, 255, 255]);
}

#[test]
fn chunk_section_holds_a_section_volume() {
    let section = ChunkSection {
        empty: true,
        blocks: vec![ChunkBlockState::Air; SECTION_VOLUME],
        offset_y: 64,
    };
    assert_eq!(section.blocks.len(), SECTION_VOLUME);
    assert!(section.blocks.iter().all(|b| b.is_air()));
}

#[test]
fn matrices_store_by_slot_id() {
    let mut m = Matrices::new();
    assert_eq!(m.projection, [0u32; 16]);
    m.set_matrix(0, [1u32; 16]);
    m.set_matrix(2, [2u32; 16]);
    m.set_matrix(3, [3u32; 16]);
    // an unknown slot id is ignored
    m.set_matrix(1, [9u32; 16]);
    m.set_matrix(7, [9u32; 16]);
    assert_eq!(m.projection, [1u32; 16]);
    assert_eq!(m.view, [2u32; 16]);
    assert_eq!(m.terrain_transformation, [3u32; 16]);
}
