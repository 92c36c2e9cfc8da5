//! Baked block meshes: the fixed 24-vertex per-element layout, per-face
//! presence metadata, and the block manager that stores one baked mesh per
//! registered block-model variant.

use vstd::prelude::*;

verus! {

/// A vertex of a baked block mesh. Positions are in sixteenths of a block in
/// block-local space, already mirrored on the X axis relative to the raw
/// model coordinates (the model space is left-handed and the baker flips it).
#[derive(Clone, Copy, PartialEq, Debug)]
pub struct BlockMeshVertex {
    /// Block-local position, in sixteenths of a block.
    pub position: [i32; 3],
    /// Atlas pixel coordinates.
    pub tex_coords: [u16; 2],
    /// Unit axis components of the face normal.
    pub normal: [i8; 3],
    /// Index into the animated-texture lookup buffer; 0 for static textures.
    pub animation_uv_offset: u32,
}

/// Marks a face of a block model as present: `vert_index` is the first of
/// the face's four reserved vertex slots, `tint_index` selects the biome
/// tint to apply (-1 for none).
#[derive(Debug, Copy, Clone, PartialEq)]
pub struct Face {
    pub vert_index: u32,
    pub tint_index: i32,
}

/// One baked model element: exactly 24 vertices (4 per face, in the fixed
/// order south, west, north, east, up, down) plus per-direction presence.
/// An absent face contributes no geometry but keeps its reserved vertex
/// slots so indexing stays uniform.
#[derive(Debug, Clone, PartialEq)]
pub struct BlockModelFaces {
    pub vertices: [BlockMeshVertex; 24],
    pub north: Option<Face>,
    pub east: Option<Face>,
    pub south: Option<Face>,
    pub west: Option<Face>,
    pub up: Option<Face>,
    pub down: Option<Face>,
    /// True when the element spans the full unit cube.
    pub cube: bool,
}

/// A face slot is within the reserved 24-vertex table.
pub open spec fn face_slot_wf(f: Option<Face>) -> bool {
    match f {
        Some(face) => face.vert_index + 4 <= 24,
        None => true,
    }
}

impl BlockModelFaces {
    /// Every present face points at four vertex slots inside the table.
    pub open spec fn wf(self) -> bool {
        face_slot_wf(self.north) && face_slot_wf(self.east) && face_slot_wf(self.south)
            && face_slot_wf(self.west) && face_slot_wf(self.up) && face_slot_wf(self.down)
    }
}

/// Whether a render layer treats a block as opaque.
pub struct RenderSettings {
    pub opaque: bool,
}

/// A block model baked into a mesh, ready for rendering.
#[derive(Debug, Clone, PartialEq)]
pub struct ModelMesh {
    /// One entry per model element (cuboid).
    pub mesh: Vec<BlockModelFaces>,
    /// True iff every element spans the full unit cube; only such meshes are
    /// eligible for neighbour-based face culling.
    pub is_cube: bool,
    /// True when blocks next to this one should still render the touching
    /// face, i.e. this block does not fully obscure its six faces.
    pub transparent: bool,
}

impl ModelMesh {
    pub open spec fn wf(self) -> bool {
        forall|i: int| 0 <= i < self.mesh@.len() ==> (#[trigger] self.mesh@[i]).wf()
    }
}

/// One registered block: its baked model variants, indexed by the augment
/// part of a [`crate::block::BlockstateKey`].
#[derive(Debug, Clone, PartialEq)]
pub struct Block {
    pub models: Vec<ModelMesh>,
}

impl Block {
    pub open spec fn wf(self) -> bool {
        forall|i: int| 0 <= i < self.models@.len() ==> (#[trigger] self.models@[i]).wf()
    }

    /// The baked mesh for one variant of this block, if registered.
    pub fn get_model(&self, augment: u16) -> (r: Option<&ModelMesh>)
        ensures
            r == if (augment as int) < self.models@.len() {
                Some(&self.models@[augment as int])
            } else {
                None::<&ModelMesh>
            },
    {
        if (augment as usize) < self.models.len() {
            Some(&self.models[augment as usize])
        } else {
            None
        }
    }
}

/// All registered blocks; the block part of a key indexes into `blocks`.
#[derive(Debug, Clone, PartialEq)]
pub struct BlockManager {
    pub blocks: Vec<Block>,
}

impl BlockManager {
    pub open spec fn wf(self) -> bool {
        forall|i: int| 0 <= i < self.blocks@.len() ==> (#[trigger] self.blocks@[i]).wf()
    }
}

/// A vertex as handed to the GPU: world-relative position in sixteenths of a
/// block, atlas coordinates, lighting and tint colour attached by a render
/// layer's mapper.
#[derive(Clone, Copy, PartialEq, Debug)]
pub struct Vertex {
    pub position: [i32; 3],
    pub tex_coords: [u16; 2],
    pub normal: [i8; 3],
    pub color: [u8; 3],
    pub light: u8,
    pub animation_uv_offset: u32,
}

/// The byte stride of one [`Vertex`] in the GPU chunk buffer.
pub const VERTEX_STRIDE: usize = 32;

} // verus!
