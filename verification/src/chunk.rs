//! Chunk meshing: walking a 16 x 384 x 16 block grid, skipping empty
//! sections, culling faces of full-cube meshes against opaque neighbours,
//! filtering blocks per render layer and emitting a linear vertex stream.

use vstd::prelude::*;
use vstd::arithmetic::div_mod::lemma_div_denominator;

use crate::block::{BlockstateKey, ChunkBlockState};
use crate::mesh::{BlockManager, BlockMeshVertex, BlockModelFaces, Face, ModelMesh, Vertex};

verus! {

pub const CHUNK_WIDTH: usize = 16;

pub const CHUNK_AREA: usize = 16 * 16;

pub const CHUNK_HEIGHT: usize = 384;

pub const CHUNK_VOLUME: usize = 16 * 16 * 384;

pub const CHUNK_SECTION_HEIGHT: usize = 16;

pub const CHUNK_SECTIONS_PER: usize = 384 / 16;

pub const SECTION_VOLUME: usize = 16 * 16 * 16;

/// A chunk position in chunk units: x and z.
pub type ChunkPos = [i32; 2];

/// Chunk positions this far from the origin keep every absolute block
/// coordinate and its neighbours within `i32`.
pub const MAX_CHUNK_POS: i32 = 134217726;

/// A light value packing a sky level and a block level, each 0..=15.
#[derive(Clone, Copy, PartialEq, Eq, Structural, Debug)]
pub struct LightLevel {
    pub byte: u8,
}

impl LightLevel {
    pub fn from_sky_and_block(sky: u8, block: u8) -> (r: LightLevel)
        requires
            sky <= 15,
            block <= 15,
        ensures
            r.byte == sky * 16 + block,
    {
        LightLevel { byte: sky * 16 + block }
    }

    /// The sky light level stored in the high nibble.
    pub fn sky(&self) -> (r: u8)
        ensures
            r == self.byte / 16,
    {
        self.byte / 16
    }

    /// The block light level stored in the low nibble.
    pub fn block(&self) -> (r: u8)
        ensures
            r == self.byte % 16,
    {
        self.byte % 16
    }
}

/// One 16 x 16 x 16 slice of a chunk: the minimal unit of "is this region
/// entirely empty" culling.
#[derive(Clone, Debug)]
pub struct ChunkSection {
    /// True when every block of the section is air.
    pub empty: bool,
    /// The section's blocks in grid order (x fastest, then z, then y);
    /// exactly [`SECTION_VOLUME`] of them.
    pub blocks: Vec<ChunkBlockState>,
    /// The world y coordinate of the section's bottom layer.
    pub offset_y: usize,
}

impl ChunkSection {
    /// The section stores one state per voxel, and its `empty` flag is
    /// honest: set only when every stored state is air.
    pub open spec fn wf(self) -> bool {
        &&& self.blocks@.len() == SECTION_VOLUME
        &&& self.empty ==> forall|i: int|
            0 <= i < self.blocks@.len() ==> (#[trigger] self.blocks@[i]) is Air
    }
}

/// Returns a block state within the provided world coordinates. Implemented
/// outside the core by whatever owns the world data; the core pulls from it
/// freely, one query per voxel per bake. The spec functions fix the value
/// each query returns, so a provider must answer consistently while a bake
/// is running.
pub trait BlockStateProvider: Sized {
    /// The state this provider reports at the given world coordinates.
    spec fn spec_state(&self, x: int, y: int, z: int) -> ChunkBlockState;

    /// Whether this provider reports the chunk section with the given index
    /// as entirely empty.
    spec fn spec_section_empty(&self, index: int) -> bool;

    /// The light level this provider reports at the given coordinates.
    spec fn spec_light_level(&self, x: int, y: int, z: int) -> LightLevel;

    /// The biome tint this provider reports at the given coordinates.
    spec fn spec_block_color(&self, x: int, y: int, z: int, tint_index: int) -> [u8; 3];

    fn get_state(&self, x: i32, y: i16, z: i32) -> (r: ChunkBlockState)
        ensures
            r == self.spec_state(x as int, y as int, z as int),
    ;

    fn get_light_level(&self, x: i32, y: i16, z: i32) -> (r: LightLevel)
        ensures
            r == self.spec_light_level(x as int, y as int, z as int),
    ;

    fn get_block_color(&self, x: i32, y: i16, z: i32, tint_index: i32) -> (r: [u8; 3])
        ensures
            r == self.spec_block_color(x as int, y as int, z as int, tint_index as int),
    ;

    fn is_section_empty(&self, index: usize) -> (r: bool)
        ensures
            r == self.spec_section_empty(index as int),
    ;
}

/// One render layer: a filter deciding which block states belong to the
/// layer, and a mapper turning a baked block-local vertex into the final GPU
/// vertex. Implemented by the embedding application; the spec functions fix
/// what the filter and mapper compute.
pub trait RenderLayer: Sized {
    /// Whether a block state belongs to this layer.
    spec fn spec_filter(&self, key: BlockstateKey) -> bool;

    /// The GPU vertex this layer produces for a baked vertex at the given
    /// chunk-local block coordinates.
    spec fn spec_map(&self, v: BlockMeshVertex, x: int, y: int, z: int) -> Vertex;

    /// This layer's name.
    spec fn spec_name(&self) -> Seq<char>;

    fn filter(&self, key: BlockstateKey) -> (r: bool)
        ensures
            r == self.spec_filter(key),
    ;

    fn mapper(&self, v: &BlockMeshVertex, x: i32, y: i32, z: i32) -> (r: Vertex)
        ensures
            r == self.spec_map(*v, x as int, y as int, z as int),
    ;

    fn name(&self) -> (r: String)
        ensures
            r@ == self.spec_name(),
    ;
}

/// A chunk: its position in chunk units and, per render-layer name, the byte
/// range of the shared GPU buffer holding its baked vertices.
#[derive(Debug)]
pub struct Chunk {
    pub pos: ChunkPos,
    /// Layer name to byte range `(start, end)`; an empty layer records an
    /// empty range and owns no buffer space.
    pub baked_layers: Vec<(String, (usize, usize))>,
}

impl Chunk {
    pub fn new(pos: ChunkPos) -> (c: Chunk)
        ensures
            c.pos == pos,
            c.baked_layers@.len() == 0,
    {
        Chunk { pos, baked_layers: Vec::new() }
    }
}

/// The baked mesh registered for a block state: `None` for air, for a block
/// index that is not registered, or for an unregistered variant.
pub open spec fn spec_get_block(bm: BlockManager, state: ChunkBlockState) -> Option<ModelMesh> {
    match state {
        ChunkBlockState::Air => None,
        ChunkBlockState::State(key) => if (key.block as int) < bm.blocks@.len() {
            let block = bm.blocks@[key.block as int];
            if (key.augment as int) < block.models@.len() {
                Some(block.models@[key.augment as int])
            } else {
                None
            }
        } else {
            None
        },
    }
}

/// Look up the baked mesh for a block state in the block manager.
pub fn get_block<'a>(block_manager: &'a BlockManager, state: ChunkBlockState) -> (r: Option<
    &'a ModelMesh,
>)
    ensures
        match r {
            Some(mesh) => spec_get_block(*block_manager, state) == Some(*mesh),
            None => spec_get_block(*block_manager, state) is None,
        },
{
    let key = match state {
        ChunkBlockState::Air => {
            return None;
        },
        ChunkBlockState::State(key) => key,
    };
    if (key.block as usize) < block_manager.blocks.len() {
        block_manager.blocks[key.block as usize].get_model(key.augment)
    } else {
        None
    }
}

/// True when the block at the given coordinates lets its neighbours' faces
/// show: it has no registered mesh (air included), its mesh is not a full
/// cube (partial geometry cannot obscure a whole face), or its mesh is
/// marked transparent.
pub open spec fn spec_not_fully_opaque<P: BlockStateProvider>(
    bm: BlockManager,
    p: P,
    x: int,
    y: int,
    z: int,
) -> bool {
    match spec_get_block(bm, p.spec_state(x, y, z)) {
        Some(mesh) => mesh.transparent || !mesh.is_cube,
        None => true,
    }
}

/// Returns true if the block at the given coordinates is either not a full
/// cube or has transparency.
pub fn is_block_not_fully_opaque<P: BlockStateProvider>(
    block_manager: &BlockManager,
    state_provider: &P,
    x: i32,
    y: i16,
    z: i32,
) -> (r: bool)
    ensures
        r == spec_not_fully_opaque(*block_manager, *state_provider, x as int, y as int, z as int),
{
    let state = get_block(block_manager, state_provider.get_state(x, y, z));
    match state {
        Some(mesh) => mesh.transparent || !mesh.is_cube,
        None => true,
    }
}

/// Which of a voxel's six neighbours do not fully obscure the touching face.
#[derive(Clone, Copy)]
pub struct FaceVisibility {
    pub north: bool,
    pub east: bool,
    pub south: bool,
    pub west: bool,
    pub up: bool,
    pub down: bool,
}

/// The visibility of each face of the voxel at absolute coordinates
/// `(ax, y, az)`: a face is visible when the neighbour it touches is not
/// fully opaque.
pub open spec fn spec_visibility<P: BlockStateProvider>(
    bm: BlockManager,
    p: P,
    ax: int,
    y: int,
    az: int,
) -> FaceVisibility {
    FaceVisibility {
        north: spec_not_fully_opaque(bm, p, ax, y, az - 1),
        east: spec_not_fully_opaque(bm, p, ax + 1, y, az),
        south: spec_not_fully_opaque(bm, p, ax, y, az + 1),
        west: spec_not_fully_opaque(bm, p, ax - 1, y, az),
        up: spec_not_fully_opaque(bm, p, ax, y + 1, az),
        down: spec_not_fully_opaque(bm, p, ax, y - 1, az),
    }
}

/// The four vertices of one face, in stored (winding) order, mapped by the
/// layer at chunk-local block coordinates `(x, y, z)`.
pub open spec fn spec_face_vertices<L: RenderLayer>(
    layer: L,
    fv: [BlockMeshVertex; 24],
    vi: int,
    x: int,
    y: int,
    z: int,
) -> Seq<Vertex> {
    seq![
        layer.spec_map(fv@[vi], x, y, z),
        layer.spec_map(fv@[vi + 1], x, y, z),
        layer.spec_map(fv@[vi + 2], x, y, z),
        layer.spec_map(fv@[vi + 3], x, y, z),
    ]
}

/// The vertices one baked element emits: for each present face, in the order
/// north, east, south, west, up, down, its four vertices -- except that for
/// a full-cube mesh a face whose neighbour is fully opaque is culled.
pub open spec fn spec_element_vertices<L: RenderLayer>(
    layer: L,
    faces: BlockModelFaces,
    cube: bool,
    vis: FaceVisibility,
    x: int,
    y: int,
    z: int,
) -> Seq<Vertex> {
    let north = match faces.north {
        Some(f) => if !cube || vis.north {
            spec_face_vertices(layer, faces.vertices, f.vert_index as int, x, y, z)
        } else {
            Seq::empty()
        },
        None => Seq::empty(),
    };
    let east = match faces.east {
        Some(f) => if !cube || vis.east {
            spec_face_vertices(layer, faces.vertices, f.vert_index as int, x, y, z)
        } else {
            Seq::empty()
        },
        None => Seq::empty(),
    };
    let south = match faces.south {
        Some(f) => if !cube || vis.south {
            spec_face_vertices(layer, faces.vertices, f.vert_index as int, x, y, z)
        } else {
            Seq::empty()
        },
        None => Seq::empty(),
    };
    let west = match faces.west {
        Some(f) => if !cube || vis.west {
            spec_face_vertices(layer, faces.vertices, f.vert_index as int, x, y, z)
        } else {
            Seq::empty()
        },
        None => Seq::empty(),
    };
    let up = match faces.up {
        Some(f) => if !cube || vis.up {
            spec_face_vertices(layer, faces.vertices, f.vert_index as int, x, y, z)
        } else {
            Seq::empty()
        },
        None => Seq::empty(),
    };
    let down = match faces.down {
        Some(f) => if !cube || vis.down {
            spec_face_vertices(layer, faces.vertices, f.vert_index as int, x, y, z)
        } else {
            Seq::empty()
        },
        None => Seq::empty(),
    };
    north + east + south + west + up + down
}

/// The vertices the first `n` elements of a mesh emit, in element order.
pub open spec fn spec_mesh_vertices_prefix<L: RenderLayer>(
    layer: L,
    mesh: Seq<BlockModelFaces>,
    cube: bool,
    vis: FaceVisibility,
    x: int,
    y: int,
    z: int,
    n: int,
) -> Seq<Vertex>
    decreases n,
{
    if n <= 0 {
        Seq::empty()
    } else {
        spec_mesh_vertices_prefix(layer, mesh, cube, vis, x, y, z, n - 1)
            + spec_element_vertices(layer, mesh[n - 1], cube, vis, x, y, z)
    }
}

/// The vertices a whole mesh emits.
pub open spec fn spec_mesh_vertices<L: RenderLayer>(
    layer: L,
    mesh: Seq<BlockModelFaces>,
    cube: bool,
    vis: FaceVisibility,
    x: int,
    y: int,
    z: int,
) -> Seq<Vertex> {
    spec_mesh_vertices_prefix(layer, mesh, cube, vis, x, y, z, mesh.len() as int)
}

/// The chunk-local x coordinate of the voxel with the given grid index:
/// the grid is walked x fastest, then z, then y.
pub open spec fn voxel_x(i: int) -> int {
    i % 16
}

/// The chunk-local z coordinate of the voxel with the given grid index.
pub open spec fn voxel_z(i: int) -> int {
    (i % 256) / 16
}

/// The chunk-local y coordinate of the voxel with the given grid index.
pub open spec fn voxel_y(i: int) -> int {
    i / 256
}

/// The vertices the voxel with grid index `i` contributes to a layer: none
/// when its section is reported empty, when it is air, when the layer's
/// filter rejects it, or when no mesh is registered for it; otherwise its
/// mesh's faces, culled against neighbour opacity if the mesh is a full
/// cube.
pub open spec fn spec_voxel_vertices<P: BlockStateProvider, L: RenderLayer>(
    bm: BlockManager,
    layer: L,
    p: P,
    pos: ChunkPos,
    i: int,
) -> Seq<Vertex> {
    let x = voxel_x(i);
    let y = voxel_y(i);
    let z = voxel_z(i);
    if p.spec_section_empty(y / 16) {
        Seq::empty()
    } else {
        let ax = pos@[0] * 16 + x;
        let az = pos@[1] * 16 + z;
        match p.spec_state(ax, y, az) {
            ChunkBlockState::Air => Seq::empty(),
            ChunkBlockState::State(key) => if !layer.spec_filter(key) {
                Seq::empty()
            } else {
                match spec_get_block(bm, ChunkBlockState::State(key)) {
                    None => Seq::empty(),
                    Some(mesh) => spec_mesh_vertices(
                        layer,
                        mesh.mesh@,
                        mesh.is_cube,
                        spec_visibility(bm, p, ax, y, az),
                        x,
                        y,
                        z,
                    ),
                }
            },
        }
    }
}

/// The vertices the first `n` voxels contribute, in grid order.
pub open spec fn spec_bake_prefix<P: BlockStateProvider, L: RenderLayer>(
    bm: BlockManager,
    layer: L,
    p: P,
    pos: ChunkPos,
    n: int,
) -> Seq<Vertex>
    decreases n,
{
    if n <= 0 {
        Seq::empty()
    } else {
        spec_bake_prefix(bm, layer, p, pos, n - 1) + spec_voxel_vertices(bm, layer, p, pos, n - 1)
    }
}

/// Every vertex `bake_layer` emits for a chunk, in grid traversal order
/// (x fastest, then z, then y).
pub open spec fn spec_bake_layer<P: BlockStateProvider, L: RenderLayer>(
    bm: BlockManager,
    layer: L,
    p: P,
    pos: ChunkPos,
) -> Seq<Vertex> {
    spec_bake_prefix(bm, layer, p, pos, CHUNK_VOLUME as int)
}

/// A run of voxels that all contribute nothing adds nothing to the stream.
proof fn lemma_prefix_skip<P: BlockStateProvider, L: RenderLayer>(
    bm: BlockManager,
    layer: L,
    p: P,
    pos: ChunkPos,
    a: int,
    b: int,
)
    requires
        0 <= a <= b,
        forall|j: int|
            a <= j < b ==> #[trigger] spec_voxel_vertices(bm, layer, p, pos, j) == Seq::<
                Vertex,
            >::empty(),
    ensures
        spec_bake_prefix(bm, layer, p, pos, b) == spec_bake_prefix(bm, layer, p, pos, a),
    decreases b - a,
{
    if a < b {
        lemma_prefix_skip(bm, layer, p, pos, a, b - 1);
        assert(spec_bake_prefix(bm, layer, p, pos, b) =~= spec_bake_prefix(
            bm,
            layer,
            p,
            pos,
            b - 1,
        ));
    }
}

/// A one-block world: a single block state at the origin, air everywhere
/// else, fully lit, with one block index tinted green.
#[derive(Debug, Clone, Copy)]
pub struct SimpleBlockstateProvider {
    /// The state of the block at the origin.
    pub key: BlockstateKey,
    /// The block index whose faces take the grass tint.
    pub tinted_block: u16,
}

impl BlockStateProvider for SimpleBlockstateProvider {
    open spec fn spec_state(&self, x: int, y: int, z: int) -> ChunkBlockState {
        if x == 0 && z == 0 && y == 0 {
            ChunkBlockState::State(self.key)
        } else {
            ChunkBlockState::Air
        }
    }

    open spec fn spec_section_empty(&self, index: int) -> bool {
        false
    }

    open spec fn spec_light_level(&self, x: int, y: int, z: int) -> LightLevel {
        LightLevel { byte: 255 }
    }

    open spec fn spec_block_color(&self, x: int, y: int, z: int, tint_index: int) -> [u8; 3] {
        match self.spec_state(x, y, z) {
            ChunkBlockState::State(key) => if key.block == self.tinted_block {
                [39u8, 114u8, 40u8]
            } else {
                [255u8, 255u8, 255u8]
            },
            ChunkBlockState::Air => [255u8, 255u8, 255u8],
        }
    }

    fn get_state(&self, x: i32, y: i16, z: i32) -> ChunkBlockState {
        if x == 0 && z == 0 && y == 0 {
            ChunkBlockState::State(self.key)
        } else {
            ChunkBlockState::Air
        }
    }

    fn get_light_level(&self, x: i32, y: i16, z: i32) -> LightLevel {
        LightLevel::from_sky_and_block(15, 15)
    }

    fn get_block_color(&self, x: i32, y: i16, z: i32, tint_index: i32) -> [u8; 3] {
        let block = match self.get_state(x, y, z) {
            ChunkBlockState::State(state) => state.block,
            ChunkBlockState::Air => {
                return [255, 255, 255];
            },
        };
        if block == self.tinted_block {
            [39, 114, 40]
        } else {
            [255, 255, 255]
        }
    }

    fn is_section_empty(&self, index: usize) -> bool {
        false
    }
}

/// The six face directions, in the order faces are emitted.
#[derive(Clone, Copy, PartialEq, Eq, Structural, Debug)]
pub enum FaceDir {
    North,
    East,
    South,
    West,
    Up,
    Down,
}

/// The face an element declares in the given direction.
pub open spec fn face_of(faces: BlockModelFaces, d: FaceDir) -> Option<Face> {
    match d {
        FaceDir::North => faces.north,
        FaceDir::East => faces.east,
        FaceDir::South => faces.south,
        FaceDir::West => faces.west,
        FaceDir::Up => faces.up,
        FaceDir::Down => faces.down,
    }
}

/// Whether the neighbour in the given direction leaves the face visible.
pub open spec fn vis_of(vis: FaceVisibility, d: FaceDir) -> bool {
    match d {
        FaceDir::North => vis.north,
        FaceDir::East => vis.east,
        FaceDir::South => vis.south,
        FaceDir::West => vis.west,
        FaceDir::Up => vis.up,
        FaceDir::Down => vis.down,
    }
}

/// Winding order is preserved face by face: whenever a present face is
/// emitted (always for a complex mesh, and when its neighbour is not fully
/// opaque for a cube), its four reserved vertices appear in the element's
/// stream consecutively, in their stored order, mapped pointwise -- so the
/// face's triangles keep their facing.
#[verifier::rlimit(100)]
pub proof fn lemma_face_emitted_in_winding_order<L: RenderLayer>(
    layer: L,
    faces: BlockModelFaces,
    cube: bool,
    vis: FaceVisibility,
    d: FaceDir,
    f: Face,
    x: int,
    y: int,
    z: int,
)
    requires
        face_of(faces, d) == Some(f),
        !cube || vis_of(vis, d),
    ensures
        exists|o: int|
            0 <= o && o + 4 <= spec_element_vertices(layer, faces, cube, vis, x, y, z).len()
                && #[trigger] spec_element_vertices(layer, faces, cube, vis, x, y, z).subrange(
                o,
                o + 4,
            ) == spec_face_vertices(layer, faces.vertices, f.vert_index as int, x, y, z),
{
    let total = spec_element_vertices(layer, faces, cube, vis, x, y, z);
    let target = spec_face_vertices(layer, faces.vertices, f.vert_index as int, x, y, z);
    let n_seq = (match faces.north {
        Some(ff) => if !cube || vis.north {
            spec_face_vertices(layer, faces.vertices, ff.vert_index as int, x, y, z)
        } else {
            Seq::<Vertex>::empty()
        },
        None => Seq::<Vertex>::empty(),
    });
    let e_seq = (match faces.east {
        Some(ff) => if !cube || vis.east {
            spec_face_vertices(layer, faces.vertices, ff.vert_index as int, x, y, z)
        } else {
            Seq::<Vertex>::empty()
        },
        None => Seq::<Vertex>::empty(),
    });
    let s_seq = (match faces.south {
        Some(ff) => if !cube || vis.south {
            spec_face_vertices(layer, faces.vertices, ff.vert_index as int, x, y, z)
        } else {
            Seq::<Vertex>::empty()
        },
        None => Seq::<Vertex>::empty(),
    });
    let w_seq = (match faces.west {
        Some(ff) => if !cube || vis.west {
            spec_face_vertices(layer, faces.vertices, ff.vert_index as int, x, y, z)
        } else {
            Seq::<Vertex>::empty()
        },
        None => Seq::<Vertex>::empty(),
    });
    let u_seq = (match faces.up {
        Some(ff) => if !cube || vis.up {
            spec_face_vertices(layer, faces.vertices, ff.vert_index as int, x, y, z)
        } else {
            Seq::<Vertex>::empty()
        },
        None => Seq::<Vertex>::empty(),
    });
    let d_seq = (match faces.down {
        Some(ff) => if !cube || vis.down {
            spec_face_vertices(layer, faces.vertices, ff.vert_index as int, x, y, z)
        } else {
            Seq::<Vertex>::empty()
        },
        None => Seq::<Vertex>::empty(),
    });
    assert(total == n_seq + e_seq + s_seq + w_seq + u_seq + d_seq);
    match d {
        FaceDir::North => {
            let o = 0int;
            assert(n_seq == target);
            assert(total.subrange(o, o + 4) =~= target);
        },
        FaceDir::East => {
            let o = n_seq.len() as int;
            assert(e_seq == target);
            assert(total.subrange(o, o + 4) =~= target);
        },
        FaceDir::South => {
            let o = n_seq.len() + e_seq.len() as int;
            assert(s_seq == target);
            assert(total.subrange(o, o + 4) =~= target);
        },
        FaceDir::West => {
            let o = n_seq.len() + e_seq.len() + s_seq.len() as int;
            assert(w_seq == target);
            assert(total.subrange(o, o + 4) =~= target);
        },
        FaceDir::Up => {
            let o = n_seq.len() + e_seq.len() + s_seq.len() + w_seq.len() as int;
            assert(u_seq == target);
            assert(total.subrange(o, o + 4) =~= target);
        },
        FaceDir::Down => {
            let o = n_seq.len() + e_seq.len() + s_seq.len() + w_seq.len() + u_seq.len() as int;
            assert(d_seq == target);
            assert(total.subrange(o, o + 4) =~= target);
        },
    }
}

/// A ready-made render layer for embedders: it accepts every block state
/// and attaches a fixed tint colour and light level to each vertex, keeping
/// block-local positions (an embedder that needs world-relative coordinates
/// converts when it uploads).
pub struct BasicRenderLayer {
    pub layer_name: String,
    pub color: [u8; 3],
    pub light: u8,
}

impl RenderLayer for BasicRenderLayer {
    open spec fn spec_filter(&self, key: BlockstateKey) -> bool {
        true
    }

    open spec fn spec_map(&self, v: BlockMeshVertex, x: int, y: int, z: int) -> Vertex {
        Vertex {
            position: v.position,
            tex_coords: v.tex_coords,
            normal: v.normal,
            color: self.color,
            light: self.light,
            animation_uv_offset: v.animation_uv_offset,
        }
    }

    open spec fn spec_name(&self) -> Seq<char> {
        self.layer_name@
    }

    fn filter(&self, key: BlockstateKey) -> bool {
        true
    }

    fn mapper(&self, v: &BlockMeshVertex, x: i32, y: i32, z: i32) -> Vertex {
        Vertex {
            position: v.position,
            tex_coords: v.tex_coords,
            normal: v.normal,
            color: self.color,
            light: self.light,
            animation_uv_offset: v.animation_uv_offset,
        }
    }

    fn name(&self) -> (r: String) {
        crate::model::clone_string(&self.layer_name)
    }
}

/// Baking the same chunk twice with identical inputs yields the same vertex
/// stream, and in particular the same multiset of vertices.
pub proof fn lemma_rebake_same_vertices<P: BlockStateProvider, L: RenderLayer>(
    bm: BlockManager,
    layer: L,
    p: P,
    pos: ChunkPos,
    v1: Seq<Vertex>,
    v2: Seq<Vertex>,
)
    requires
        v1 == spec_bake_layer(bm, layer, p, pos),
        v2 == spec_bake_layer(bm, layer, p, pos),
    ensures
        v1 == v2,
        v1.to_multiset() == v2.to_multiset(),
{
}

/// No face of this voxel is visible.
pub open spec fn all_hidden(vis: FaceVisibility) -> bool {
    !vis.north && !vis.east && !vis.south && !vis.west && !vis.up && !vis.down
}

/// A voxel in a section the provider reports empty contributes no vertices,
/// whatever the provider would report for its position.
pub proof fn lemma_empty_section_voxel<P: BlockStateProvider, L: RenderLayer>(
    bm: BlockManager,
    layer: L,
    p: P,
    pos: ChunkPos,
    i: int,
)
    requires
        p.spec_section_empty(voxel_y(i) / 16),
    ensures
        spec_voxel_vertices(bm, layer, p, pos, i) == Seq::<Vertex>::empty(),
{
}

/// A full-cube mesh whose six neighbours are all fully opaque emits no
/// vertices at all: every face of every element is culled.
pub proof fn lemma_surrounded_cube_culled<L: RenderLayer>(
    layer: L,
    mesh: Seq<BlockModelFaces>,
    vis: FaceVisibility,
    x: int,
    y: int,
    z: int,
    n: int,
)
    requires
        all_hidden(vis),
    ensures
        spec_mesh_vertices_prefix(layer, mesh, true, vis, x, y, z, n) == Seq::<Vertex>::empty(),
    decreases n,
{
    if n > 0 {
        lemma_surrounded_cube_culled(layer, mesh, vis, x, y, z, n - 1);
        assert(spec_element_vertices(layer, mesh[n - 1], true, vis, x, y, z) =~= Seq::<
            Vertex,
        >::empty());
        assert(spec_mesh_vertices_prefix(layer, mesh, true, vis, x, y, z, n) =~= Seq::<
            Vertex,
        >::empty());
    }
}

/// A full-cube element with exactly one visible face -- here the up face --
/// emits exactly that face's four vertices, in their stored winding order.
pub proof fn lemma_single_visible_face<L: RenderLayer>(
    layer: L,
    faces: BlockModelFaces,
    vis: FaceVisibility,
    f: Face,
    x: int,
    y: int,
    z: int,
)
    requires
        faces.up == Some(f),
        vis.up,
        !vis.north,
        !vis.east,
        !vis.south,
        !vis.west,
        !vis.down,
    ensures
        spec_element_vertices(layer, faces, true, vis, x, y, z) == spec_face_vertices(
            layer,
            faces.vertices,
            f.vert_index as int,
            x,
            y,
            z,
        ),
{
    assert(spec_element_vertices(layer, faces, true, vis, x, y, z) =~= spec_face_vertices(
        layer,
        faces.vertices,
        f.vert_index as int,
        x,
        y,
        z,
    ));
}

/// A complex (non-full-cube) element is never culled: it emits the same
/// vertices whatever the neighbours' opacity.
pub proof fn lemma_complex_ignores_neighbours<L: RenderLayer>(
    layer: L,
    faces: BlockModelFaces,
    vis1: FaceVisibility,
    vis2: FaceVisibility,
    x: int,
    y: int,
    z: int,
)
    ensures
        spec_element_vertices(layer, faces, false, vis1, x, y, z) == spec_element_vertices(
            layer,
            faces,
            false,
            vis2,
            x,
            y,
            z,
        ),
{
}

/// Append the four vertices of one face to the stream.
fn emit_face<L: RenderLayer>(
    vertices: &mut Vec<Vertex>,
    layer: &L,
    fv: &[BlockMeshVertex; 24],
    vert_index: u32,
    x: i32,
    y: i32,
    z: i32,
)
    requires
        vert_index + 4 <= 24,
    ensures
        final(vertices)@ == old(vertices)@ + spec_face_vertices(
            *layer,
            *fv,
            vert_index as int,
            x as int,
            y as int,
            z as int,
        ),
{
    let vi = vert_index as usize;
    vertices.push(layer.mapper(&fv[vi], x, y, z));
    vertices.push(layer.mapper(&fv[vi + 1], x, y, z));
    vertices.push(layer.mapper(&fv[vi + 2], x, y, z));
    vertices.push(layer.mapper(&fv[vi + 3], x, y, z));
    assert(final(vertices)@ =~= old(vertices)@ + spec_face_vertices(
        *layer,
        *fv,
        vert_index as int,
        x as int,
        y as int,
        z as int,
    ));
}

/// Append the vertices one element emits (present faces, culled for cubes).
#[verifier::rlimit(100)]
fn emit_element<L: RenderLayer>(
    vertices: &mut Vec<Vertex>,
    layer: &L,
    faces: &BlockModelFaces,
    cube: bool,
    vis: FaceVisibility,
    x: i32,
    y: i32,
    z: i32,
)
    requires
        faces.wf(),
    ensures
        final(vertices)@ == old(vertices)@ + spec_element_vertices(
            *layer,
            *faces,
            cube,
            vis,
            x as int,
            y as int,
            z as int,
        ),
{
    let ghost xi = x as int;
    let ghost yi = y as int;
    let ghost zi = z as int;
    let ghost north_seq = (match faces.north {
        Some(f) => if !cube || vis.north {
            spec_face_vertices(*layer, faces.vertices, f.vert_index as int, xi, yi, zi)
        } else {
            Seq::<Vertex>::empty()
        },
        None => Seq::<Vertex>::empty(),
    });
    let ghost east_seq = (match faces.east {
        Some(f) => if !cube || vis.east {
            spec_face_vertices(*layer, faces.vertices, f.vert_index as int, xi, yi, zi)
        } else {
            Seq::<Vertex>::empty()
        },
        None => Seq::<Vertex>::empty(),
    });
    let ghost south_seq = (match faces.south {
        Some(f) => if !cube || vis.south {
            spec_face_vertices(*layer, faces.vertices, f.vert_index as int, xi, yi, zi)
        } else {
            Seq::<Vertex>::empty()
        },
        None => Seq::<Vertex>::empty(),
    });
    let ghost west_seq = (match faces.west {
        Some(f) => if !cube || vis.west {
            spec_face_vertices(*layer, faces.vertices, f.vert_index as int, xi, yi, zi)
        } else {
            Seq::<Vertex>::empty()
        },
        None => Seq::<Vertex>::empty(),
    });
    let ghost up_seq = (match faces.up {
        Some(f) => if !cube || vis.up {
            spec_face_vertices(*layer, faces.vertices, f.vert_index as int, xi, yi, zi)
        } else {
            Seq::<Vertex>::empty()
        },
        None => Seq::<Vertex>::empty(),
    });
    let ghost down_seq = (match faces.down {
        Some(f) => if !cube || vis.down {
            spec_face_vertices(*layer, faces.vertices, f.vert_index as int, xi, yi, zi)
        } else {
            Seq::<Vertex>::empty()
        },
        None => Seq::<Vertex>::empty(),
    });
    let ghost base = vertices@;
    let ghost mut acc = base;

    broadcast use vstd::prelude::Seq::add_empty_right;

    if let Some(face) = faces.north {
        if !cube || vis.north {
            emit_face(vertices, layer, &faces.vertices, face.vert_index, x, y, z);
        }
    }
    proof {
        acc = acc + north_seq;
    }
    assert(vertices@ == acc);
    if let Some(face) = faces.east {
        if !cube || vis.east {
            emit_face(vertices, layer, &faces.vertices, face.vert_index, x, y, z);
        }
    }
    proof {
        acc = acc + east_seq;
    }
    assert(vertices@ == acc);
    if let Some(face) = faces.south {
        if !cube || vis.south {
            emit_face(vertices, layer, &faces.vertices, face.vert_index, x, y, z);
        }
    }
    proof {
        acc = acc + south_seq;
    }
    assert(vertices@ == acc);
    if let Some(face) = faces.west {
        if !cube || vis.west {
            emit_face(vertices, layer, &faces.vertices, face.vert_index, x, y, z);
        }
    }
    proof {
        acc = acc + west_seq;
    }
    assert(vertices@ == acc);
    if let Some(face) = faces.up {
        if !cube || vis.up {
            emit_face(vertices, layer, &faces.vertices, face.vert_index, x, y, z);
        }
    }
    proof {
        acc = acc + up_seq;
    }
    assert(vertices@ == acc);
    if let Some(face) = faces.down {
        if !cube || vis.down {
            emit_face(vertices, layer, &faces.vertices, face.vert_index, x, y, z);
        }
    }
    proof {
        acc = acc + down_seq;
    }
    assert(vertices@ == acc);
    proof {
        assert(spec_element_vertices(*layer, *faces, cube, vis, xi, yi, zi) == north_seq + east_seq
            + south_seq + west_seq + up_seq + down_seq);
        vstd::seq_lib::lemma_concat_associative(base, north_seq, east_seq);
        vstd::seq_lib::lemma_concat_associative(base, north_seq + east_seq, south_seq);
        vstd::seq_lib::lemma_concat_associative(base, north_seq + east_seq + south_seq, west_seq);
        vstd::seq_lib::lemma_concat_associative(
            base,
            north_seq + east_seq + south_seq + west_seq,
            up_seq,
        );
        vstd::seq_lib::lemma_concat_associative(
            base,
            north_seq + east_seq + south_seq + west_seq + up_seq,
            down_seq,
        );
    }
}

/// Generate the vertex stream of one chunk for one render layer, culling
/// faces whenever possible. The stream is exactly the per-voxel
/// contributions of [`spec_voxel_vertices`], concatenated in grid traversal
/// order; voxels of a section the provider reports empty are skipped
/// section-wise and contribute nothing.
#[verifier::rlimit(100)]
pub fn bake_layer<P: BlockStateProvider, L: RenderLayer>(
    block_manager: &BlockManager,
    chunk: &Chunk,
    layer: &L,
    state_provider: &P,
) -> (vertices: Vec<Vertex>)
    requires
        block_manager.wf(),
        -MAX_CHUNK_POS <= chunk.pos@[0] <= MAX_CHUNK_POS,
        -MAX_CHUNK_POS <= chunk.pos@[1] <= MAX_CHUNK_POS,
    ensures
        vertices@ == spec_bake_layer(*block_manager, *layer, *state_provider, chunk.pos),
{
    let mut vertices: Vec<Vertex> = Vec::new();
    let mut block_index: usize = 0;

    while block_index < CHUNK_VOLUME
        invariant
            block_index <= CHUNK_VOLUME,
            block_manager.wf(),
            -MAX_CHUNK_POS <= chunk.pos@[0] <= MAX_CHUNK_POS,
            -MAX_CHUNK_POS <= chunk.pos@[1] <= MAX_CHUNK_POS,
            vertices@ == spec_bake_prefix(
                *block_manager,
                *layer,
                *state_provider,
                chunk.pos,
                block_index as int,
            ),
            block_index % SECTION_VOLUME != 0 ==> !state_provider.spec_section_empty(
                block_index as int / SECTION_VOLUME as int,
            ),
        decreases CHUNK_VOLUME - block_index,
    {
        let ghost bi = block_index as int;

        if block_index % SECTION_VOLUME == 0 {
            let section_index = block_index / SECTION_VOLUME;
            if state_provider.is_section_empty(section_index) {
                proof {
                    assert forall|j: int| bi <= j < bi + SECTION_VOLUME implies #[trigger]
                    spec_voxel_vertices(
                        *block_manager,
                        *layer,
                        *state_provider,
                        chunk.pos,
                        j,
                    ) == Seq::<Vertex>::empty() by {
                        lemma_div_denominator(j, 256, 16);
                        assert(voxel_y(j) / 16 == j / 4096);
                        assert(j / 4096 == bi / 4096) by (nonlinear_arith)
                            requires
                                bi % 4096 == 0,
                                bi <= j < bi + 4096,
                                0 <= bi,
                        ;
                    }
                    lemma_prefix_skip(
                        *block_manager,
                        *layer,
                        *state_provider,
                        chunk.pos,
                        bi,
                        bi + SECTION_VOLUME,
                    );
                }
                block_index = block_index + SECTION_VOLUME;
                proof {
                    assert(block_index % SECTION_VOLUME == 0) by (nonlinear_arith)
                        requires
                            bi % 4096 == 0,
                            block_index == bi + 4096,
                    ;
                }
                continue ;
            }
        }

        let x = (block_index % CHUNK_WIDTH) as i32;
        let y = (block_index / CHUNK_AREA) as i32;
        let z = ((block_index % CHUNK_AREA) / CHUNK_WIDTH) as i32;

        proof {
            assert(x == voxel_x(bi) && z == voxel_z(bi) && y == voxel_y(bi));
            assert(voxel_y(bi) / 16 == bi / 4096) by {
                lemma_div_denominator(bi, 256, 16);
            }
            // The section of this voxel was reported non-empty: either this
            // iteration checked it (at a section start) or the invariant
            // carried the check from the section's first voxel.
            assert(!state_provider.spec_section_empty(bi / 4096));
            assert((bi + 1) % 4096 != 0 ==> (bi + 1) / 4096 == bi / 4096) by (nonlinear_arith)
                requires
                    0 <= bi,
            ;
        }

        block_index = block_index + 1;

        let absolute_x = chunk.pos[0] * 16 + x;
        let absolute_z = chunk.pos[1] * 16 + z;

        let block_state: ChunkBlockState = state_provider.get_state(
            absolute_x,
            y as i16,
            absolute_z,
        );

        let ghost contribution = spec_voxel_vertices(
            *block_manager,
            *layer,
            *state_provider,
            chunk.pos,
            bi,
        );

        let state_key = match block_state {
            ChunkBlockState::Air => {
                proof {
                    assert(vertices@ =~= spec_bake_prefix(
                        *block_manager,
                        *layer,
                        *state_provider,
                        chunk.pos,
                        bi + 1,
                    ));
                }
                continue ;
            },
            ChunkBlockState::State(key) => key,
        };

        if !layer.filter(state_key) {
            proof {
                assert(vertices@ =~= spec_bake_prefix(
                    *block_manager,
                    *layer,
                    *state_provider,
                    chunk.pos,
                    bi + 1,
                ));
            }
            continue ;
        }

        let mesh = match get_block(block_manager, block_state) {
            Some(mesh) => mesh,
            None => {
                proof {
                    assert(vertices@ =~= spec_bake_prefix(
                        *block_manager,
                        *layer,
                        *state_provider,
                        chunk.pos,
                        bi + 1,
                    ));
                }
                continue ;
            },
        };

        let vis = FaceVisibility {
            north: is_block_not_fully_opaque(
                block_manager,
                state_provider,
                absolute_x,
                y as i16,
                absolute_z - 1,
            ),
            east: is_block_not_fully_opaque(
                block_manager,
                state_provider,
                absolute_x + 1,
                y as i16,
                absolute_z,
            ),
            south: is_block_not_fully_opaque(
                block_manager,
                state_provider,
                absolute_x,
                y as i16,
                absolute_z + 1,
            ),
            west: is_block_not_fully_opaque(
                block_manager,
                state_provider,
                absolute_x - 1,
                y as i16,
                absolute_z,
            ),
            up: is_block_not_fully_opaque(
                block_manager,
                state_provider,
                absolute_x,
                (y + 1) as i16,
                absolute_z,
            ),
            down: is_block_not_fully_opaque(
                block_manager,
                state_provider,
                absolute_x,
                (y - 1) as i16,
                absolute_z,
            ),
        };

        proof {
            assert(vis == spec_visibility(
                *block_manager,
                *state_provider,
                absolute_x as int,
                y as int,
                absolute_z as int,
            ));
        }

        let ghost base = vertices@;
        let ghost mesh_snap = *mesh;

        let mut e: usize = 0;
        while e < mesh.mesh.len()
            invariant
                e <= mesh.mesh.len(),
                *mesh == mesh_snap,
                mesh_snap.wf(),
                vertices@ == base + spec_mesh_vertices_prefix(
                    *layer,
                    mesh_snap.mesh@,
                    mesh_snap.is_cube,
                    vis,
                    x as int,
                    y as int,
                    z as int,
                    e as int,
                ),
            decreases mesh.mesh.len() - e,
        {
            emit_element(
                &mut vertices,
                layer,
                &mesh.mesh[e],
                mesh.is_cube,
                vis,
                x,
                y,
                z,
            );
            e = e + 1;
            proof {
                assert(vertices@ =~= base + spec_mesh_vertices_prefix(
                    *layer,
                    mesh_snap.mesh@,
                    mesh_snap.is_cube,
                    vis,
                    x as int,
                    y as int,
                    z as int,
                    e as int,
                ));
            }
        }

        proof {
            assert(contribution == spec_mesh_vertices(
                *layer,
                mesh_snap.mesh@,
                mesh_snap.is_cube,
                vis,
                x as int,
                y as int,
                z as int,
            ));
            assert(vertices@ =~= spec_bake_prefix(
                *block_manager,
                *layer,
                *state_provider,
                chunk.pos,
                bi + 1,
            ));
        }
    }

    vertices
}

} // verus!
