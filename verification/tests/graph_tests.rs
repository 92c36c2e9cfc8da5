use wgpu_mc::atlas::{Atlas, TextureImage};
use wgpu_mc::chunk_alloc::{allocate_range, free_range, range_allocator_new, total_available};
use wgpu_mc::graph::{PassConfig, RenderGraph, ResourceBacking, ShaderPackConfig};

fn sample_graph() -> RenderGraph {
    let passes = vec![
        PassConfig {
            name: "terrain".to_owned(),
            inputs: vec!["@mat4_view".to_owned(), "@texture_block_atlas".to_owned()],
            output: "wm_framebuffer".to_owned(),
            shader: "terrain.wgsl".to_owned(),
        },
        PassConfig {
            name: "entities".to_owned(),
            inputs: vec!["@mat4_view".to_owned()],
            output: "wm_framebuffer".to_owned(),
            shader: "entities.wgsl".to_owned(),
        },
    ];
    let resources = vec![
        (
            "@mat4_view".to_owned(),
            ResourceBacking::Matrix4([7u32; 16]),
        ),
        ("@texture_block_atlas".to_owned(), ResourceBacking::Texture(3)),
    ];
    RenderGraph::new(ShaderPackConfig { passes }, resources)
}

#[test]
fn render_runs_passes_in_declared_order() {
    let mut graph = sample_graph();
    graph.init();
    let frame = graph.render();
    assert_eq!(frame.len(), 2);
    assert_eq!(frame[0].pass_name, "terrain");
    assert_eq!(frame[0].shader, "terrain.wgsl");
    assert_eq!(frame[0].output, "wm_framebuffer");
    assert_eq!(frame[1].pass_name, "entities");
    assert_eq!(
        frame[0].bound,
        vec![
            (
                "@mat4_view".to_owned(),
                Some(ResourceBacking::Matrix4([7u32; 16]))
            ),
            (
                "@texture_block_atlas".to_owned(),
                Some(ResourceBacking::Texture(3))
            ),
        ]
    );
}

#[test]
fn repeated_renders_bind_identical_values() {
    let mut graph = sample_graph();
    graph.init();
    let first = graph.render();
    let second = graph.render();
    let third = graph.render();
    // no intervening writes: every frame references bit-identical values
    assert_eq!(first, second);
    assert_eq!(second, third);
}

#[test]
fn writes_before_a_frame_are_visible_to_it() {
    let mut graph = sample_graph();
    graph.init();
    let before = graph.render();
    graph.set_resource(
        "@mat4_view".to_owned(),
        ResourceBacking::Matrix4([9u32; 16]),
    );
    let after = graph.render();
    assert_ne!(before, after);
    assert_eq!(
        after[1].bound[0].1,
        Some(ResourceBacking::Matrix4([9u32; 16]))
    );
    // other resources are undisturbed
    assert_eq!(
        after[0].bound[1].1,
        Some(ResourceBacking::Texture(3))
    );
    // an unregistered name binds nothing
    assert_eq!(graph.get_resource(&"@missing".to_owned()), None);
}

#[test]
fn atlas_allocation_is_idempotent_per_path() {
    let mut atlas = Atlas::new();
    let batch = vec![
        (
            "block/stone".to_owned(),
            TextureImage { width: 16, height: 16 },
        ),
        (
            "block/dirt".to_owned(),
            TextureImage { width: 32, height: 16 },
        ),
    ];
    atlas.allocate(&batch);
    let stone = atlas.get_uv(&"block/stone".to_owned()).unwrap();
    let dirt = atlas.get_uv(&"block/dirt".to_owned()).unwrap();
    assert_eq!(stone, ((0, 0), (16, 16)));
    assert_eq!(dirt, ((16, 0), (48, 16)));
    // packing the same paths again changes nothing
    atlas.allocate(&batch);
    assert_eq!(atlas.get_uv(&"block/stone".to_owned()).unwrap(), stone);
    assert_eq!(atlas.get_uv(&"block/dirt".to_owned()).unwrap(), dirt);
    assert_eq!(atlas.entries.len(), 2);
}

#[test]
fn animated_offsets_default_to_zero() {
    let mut atlas = Atlas::new();
    assert_eq!(atlas.get_animated_offset(&"block/water".to_owned()), 0);
    atlas.register_animated_texture("block/water".to_owned(), 5);
    assert_eq!(atlas.get_animated_offset(&"block/water".to_owned()), 5);
    // a later registration of the same path is ignored
    atlas.register_animated_texture("block/water".to_owned(), 9);
    assert_eq!(atlas.get_animated_offset(&"block/water".to_owned()), 5);
}

#[test]
fn range_allocator_grants_frees_and_reports_capacity() {
    let mut alloc = range_allocator_new(100);
    assert_eq!(total_available(&alloc), 100);
    let (s1, e1) = allocate_range(&mut alloc, 30).unwrap();
    assert_eq!(e1 - s1, 30);
    let (s2, e2) = allocate_range(&mut alloc, 40).unwrap();
    assert_eq!(e2 - s2, 40);
    assert_eq!(total_available(&alloc), 30);
    // exhaustion is surfaced, not silently dropped
    assert!(allocate_range(&mut alloc, 31).is_err());
    free_range(&mut alloc, s1, e1);
    assert_eq!(total_available(&alloc), 60);
    // 60 bytes are free but fragmented: a contiguous 60 cannot be granted
    assert!(allocate_range(&mut alloc, 60).is_err());
    let (s3, e3) = allocate_range(&mut alloc, 30).unwrap();
    assert_eq!(e3 - s3, 30);
    assert_eq!(total_available(&alloc), 30);
}
