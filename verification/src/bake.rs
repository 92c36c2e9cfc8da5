//! The mesh baker: turns a set of resolved block models into the fixed
//! 24-vertex-per-element layout the chunk mesher consumes, fetching and
//! packing any texture the atlas does not hold yet.

use vstd::prelude::*;

use crate::atlas::{
    atlas_wf, spec_allocate, spec_animated_offset, spec_get_uv, Atlas, AtlasModel, TextureImage, UV,
};
use crate::mesh::{BlockModelFaces, BlockMeshVertex, Face, ModelMesh, RenderSettings};
use crate::model::{
    clone_string, resolve_model, spec_model_path, spec_resolve_model, spec_resolve_ref,
    spec_texture_path, texture_resource_path, model_resource_path, Element, ElementFace,
    MergedModel, MeshBakeError, Model, ModelProperties, ResolveErr, ResourceError,
    ResourceProvider, TextureValue, MAX_PARENT_DEPTH,
};

verus! {

/// What the baker knows about one face of one element: whether the face
/// exists and found its texture, its atlas UV rectangle adjusted by the
/// face-local sub-rectangle, its animation frame offset, and its tint.
pub ghost struct FaceData {
    pub present: bool,
    pub uv: UV,
    pub anim: u32,
    pub tint: i32,
}

/// An absent face: zeroed placeholder UV, no animation, tint -1.
pub open spec fn no_face_data() -> FaceData {
    FaceData { present: false, uv: ((0u16, 0u16), (0u16, 0u16)), anim: 0u32, tint: -1i32 }
}

/// Addition of atlas pixel coordinates, saturating at the coordinate limit.
pub open spec fn spec_sat_add16(a: u16, b: u16) -> u16 {
    if a + b > 65535 {
        65535
    } else {
        (a + b) as u16
    }
}

/// Addition of atlas pixel coordinates, saturating at the coordinate limit.
fn sat_add16(a: u16, b: u16) -> (r: u16)
    ensures
        r == spec_sat_add16(a, b),
{
    let s = a as u32 + b as u32;
    if s > 65535 {
        65535
    } else {
        s as u16
    }
}

/// The face-local UV sub-rectangle: the declared one, or the full quad.
pub open spec fn spec_face_uv_rect(uv: Option<[u16; 4]>) -> [u16; 4] {
    match uv {
        Some(r) => r,
        None => [0u16, 0u16, 16u16, 16u16],
    }
}

/// What one declared face bakes to: its texture reference is followed
/// through the texture table, the atlas supplies the UV rectangle, and the
/// face-local sub-rectangle shifts it. A face whose texture cannot be
/// resolved or is not in the atlas is treated as absent.
pub open spec fn spec_face_data(
    a: AtlasModel,
    textures: Seq<(String, TextureValue)>,
    face: Option<ElementFace>,
) -> FaceData {
    match face {
        None => no_face_data(),
        Some(f) => match spec_resolve_ref(textures, f.texture, textures.len() as nat) {
            None => no_face_data(),
            Some(path) => match spec_get_uv(a.entries, path@) {
                None => no_face_data(),
                Some(uv) => {
                    let rect = spec_face_uv_rect(f.uv);
                    FaceData {
                        present: true,
                        uv: (
                            (spec_sat_add16(uv.0.0, rect[0]), spec_sat_add16(uv.0.1, rect[1])),
                            (spec_sat_add16(uv.0.0, rect[2]), spec_sat_add16(uv.0.1, rect[3])),
                        ),
                        anim: spec_animated_offset(a.animated_offsets, path@),
                        tint: f.tint_index,
                    }
                },
            },
        },
    }
}

/// Compute one face's bake data against the atlas.
fn compute_face_data(atlas: &Atlas, textures: &Vec<(String, TextureValue)>, face: &Option<
    ElementFace,
>) -> (r: (bool, UV, u32, i32))
    ensures
        ({
            let fd = spec_face_data(atlas@, textures@, *face);
            r.0 == fd.present && r.1 == fd.uv && r.2 == fd.anim && r.3 == fd.tint
        }),
{
    let f = match face {
        None => {
            return (false, ((0, 0), (0, 0)), 0, -1);
        },
        Some(f) => f,
    };
    let path = match crate::model::resolve_ref(&textures, &f.texture) {
        None => {
            return (false, ((0, 0), (0, 0)), 0, -1);
        },
        Some(p) => p,
    };
    let uv = match atlas.get_uv(&path) {
        None => {
            return (false, ((0, 0), (0, 0)), 0, -1);
        },
        Some(uv) => uv,
    };
    let rect: [u16; 4] = match f.uv {
        Some(r) => r,
        None => [0, 0, 16, 16],
    };
    let anim = atlas.get_animated_offset(&path);
    (
        true,
        (
            (sat_add16(uv.0.0, rect[0]), sat_add16(uv.0.1, rect[1])),
            (sat_add16(uv.0.0, rect[2]), sat_add16(uv.0.1, rect[3])),
        ),
        anim,
        f.tint_index,
    )
}

/// One corner of an element in block-local sixteenths, X mirrored.
pub open spec fn corner(e: Element, mx: bool, my: bool, mz: bool) -> [i32; 3] {
    [
        (16 - (if mx {
            e.to[0]
        } else {
            e.from[0]
        })) as i32,
        (if my {
            e.to[1]
        } else {
            e.from[1]
        }) as i32,
        (if mz {
            e.to[2]
        } else {
            e.from[2]
        }) as i32,
    ]
}

/// The 24 vertices one element bakes to: four per face in the fixed order
/// south, west, north, east, up, down, each carrying its face's UV corner
/// and animation offset. The corner letters follow the baker's convention:
/// `a`..`h` are the box corners, X mirrored.
pub open spec fn spec_vertex_table(
    e: Element,
    south: FaceData,
    west: FaceData,
    north: FaceData,
    east: FaceData,
    up: FaceData,
    down: FaceData,
) -> Seq<BlockMeshVertex> {
    let ca = corner(e, false, false, false);
    let cb = corner(e, true, false, false);
    let cc = corner(e, true, true, false);
    let cd = corner(e, false, true, false);
    let ce = corner(e, false, false, true);
    let cf = corner(e, true, false, true);
    let cg = corner(e, true, true, true);
    let ch = corner(e, false, true, true);
    seq![
        BlockMeshVertex {
            position: ch,
            tex_coords: [south.uv.1.0, south.uv.0.1],
            normal: [0i8, 0i8, 1i8],
            animation_uv_offset: south.anim,
        },
        BlockMeshVertex {
            position: cg,
            tex_coords: [south.uv.0.0, south.uv.0.1],
            normal: [0i8, 0i8, 1i8],
            animation_uv_offset: south.anim,
        },
        BlockMeshVertex {
            position: cf,
            tex_coords: [south.uv.0.0, south.uv.1.1],
            normal: [0i8, 0i8, 1i8],
            animation_uv_offset: south.anim,
        },
        BlockMeshVertex {
            position: ce,
            tex_coords: [south.uv.1.0, south.uv.1.1],
            normal: [0i8, 0i8, 1i8],
            animation_uv_offset: south.anim,
        },
        BlockMeshVertex {
            position: cf,
            tex_coords: [west.uv.1.0, west.uv.1.1],
            normal: [-1i8, 0i8, 0i8],
            animation_uv_offset: west.anim,
        },
        BlockMeshVertex {
            position: cg,
            tex_coords: [west.uv.1.0, west.uv.0.1],
            normal: [-1i8, 0i8, 0i8],
            animation_uv_offset: west.anim,
        },
        BlockMeshVertex {
            position: cc,
            tex_coords: [west.uv.0.0, west.uv.0.1],
            normal: [-1i8, 0i8, 0i8],
            animation_uv_offset: west.anim,
        },
        BlockMeshVertex {
            position: cb,
            tex_coords: [west.uv.0.0, west.uv.1.1],
            normal: [-1i8, 0i8, 0i8],
            animation_uv_offset: west.anim,
        },
        BlockMeshVertex {
            position: ca,
            tex_coords: [north.uv.0.0, north.uv.1.1],
            normal: [0i8, 0i8, -1i8],
            animation_uv_offset: north.anim,
        },
        BlockMeshVertex {
            position: cb,
            tex_coords: [north.uv.1.0, north.uv.1.1],
            normal: [0i8, 0i8, -1i8],
            animation_uv_offset: north.anim,
        },
        BlockMeshVertex {
            position: cc,
            tex_coords: [north.uv.1.0, north.uv.0.1],
            normal: [0i8, 0i8, -1i8],
            animation_uv_offset: north.anim,
        },
        BlockMeshVertex {
            position: cd,
            tex_coords: [north.uv.0.0, north.uv.0.1],
            normal: [0i8, 0i8, -1i8],
            animation_uv_offset: north.anim,
        },
        BlockMeshVertex {
            position: ch,
            tex_coords: [east.uv.0.0, east.uv.0.1],
            normal: [1i8, 0i8, 0i8],
            animation_uv_offset: east.anim,
        },
        BlockMeshVertex {
            position: ce,
            tex_coords: [east.uv.0.0, east.uv.1.1],
            normal: [1i8, 0i8, 0i8],
            animation_uv_offset: east.anim,
        },
        BlockMeshVertex {
            position: ca,
            tex_coords: [east.uv.1.0, east.uv.1.1],
            normal: [1i8, 0i8, 0i8],
            animation_uv_offset: east.anim,
        },
        BlockMeshVertex {
            position: cd,
            tex_coords: [east.uv.1.0, east.uv.0.1],
            normal: [1i8, 0i8, 0i8],
            animation_uv_offset: east.anim,
        },
        BlockMeshVertex {
            position: cd,
            tex_coords: [up.uv.0.0, up.uv.1.1],
            normal: [0i8, 1i8, 0i8],
            animation_uv_offset: up.anim,
        },
        BlockMeshVertex {
            position: cc,
            tex_coords: [up.uv.1.0, up.uv.1.1],
            normal: [0i8, 1i8, 0i8],
            animation_uv_offset: up.anim,
        },
        BlockMeshVertex {
            position: cg,
            tex_coords: [up.uv.1.0, up.uv.0.1],
            normal: [0i8, 1i8, 0i8],
            animation_uv_offset: up.anim,
        },
        BlockMeshVertex {
            position: ch,
            tex_coords: [up.uv.0.0, up.uv.0.1],
            normal: [0i8, 1i8, 0i8],
            animation_uv_offset: up.anim,
        },
        BlockMeshVertex {
            position: ce,
            tex_coords: [down.uv.1.0, down.uv.1.1],
            normal: [0i8, -1i8, 0i8],
            animation_uv_offset: down.anim,
        },
        BlockMeshVertex {
            position: cf,
            tex_coords: [down.uv.0.0, down.uv.1.1],
            normal: [0i8, -1i8, 0i8],
            animation_uv_offset: down.anim,
        },
        BlockMeshVertex {
            position: cb,
            tex_coords: [down.uv.0.0, down.uv.0.1],
            normal: [0i8, -1i8, 0i8],
            animation_uv_offset: down.anim,
        },
        BlockMeshVertex {
            position: ca,
            tex_coords: [down.uv.1.0, down.uv.0.1],
            normal: [0i8, -1i8, 0i8],
            animation_uv_offset: down.anim,
        },
    ]
}

/// The face-presence marker of one direction: present faces point at their
/// four reserved vertex slots; absent ones contribute no geometry.
pub open spec fn spec_face_marker(fd: FaceData, vert_index: u32) -> Option<Face> {
    if fd.present {
        Some(Face { vert_index, tint_index: fd.tint })
    } else {
        None
    }
}

/// An element spans the full unit cube.
pub open spec fn spec_element_is_cube(e: Element) -> bool {
    &&& e.from[0] == 0 && e.from[1] == 0 && e.from[2] == 0
    &&& e.to[0] == 16 && e.to[1] == 16 && e.to[2] == 16
}

/// What one element bakes to.
pub ghost struct BakedElement {
    pub vertices: Seq<BlockMeshVertex>,
    pub north: Option<Face>,
    pub east: Option<Face>,
    pub south: Option<Face>,
    pub west: Option<Face>,
    pub up: Option<Face>,
    pub down: Option<Face>,
    pub cube: bool,
}

/// Bake one element against the atlas and a texture table.
pub open spec fn spec_bake_element(
    a: AtlasModel,
    textures: Seq<(String, TextureValue)>,
    e: Element,
) -> BakedElement {
    let south = spec_face_data(a, textures, e.south);
    let west = spec_face_data(a, textures, e.west);
    let north = spec_face_data(a, textures, e.north);
    let east = spec_face_data(a, textures, e.east);
    let up = spec_face_data(a, textures, e.up);
    let down = spec_face_data(a, textures, e.down);
    BakedElement {
        vertices: spec_vertex_table(e, south, west, north, east, up, down),
        south: spec_face_marker(south, 0),
        west: spec_face_marker(west, 4),
        north: spec_face_marker(north, 8),
        east: spec_face_marker(east, 12),
        up: spec_face_marker(up, 16),
        down: spec_face_marker(down, 20),
        cube: spec_element_is_cube(e),
    }
}

/// An executable baked element agrees with its specification.
pub open spec fn element_matches(bf: BlockModelFaces, be: BakedElement) -> bool {
    &&& bf.vertices@ == be.vertices
    &&& bf.north == be.north
    &&& bf.east == be.east
    &&& bf.south == be.south
    &&& bf.west == be.west
    &&& bf.up == be.up
    &&& bf.down == be.down
    &&& bf.cube == be.cube
}

/// Bake one element: compute each face's data, lay out the 24-vertex table,
/// and mark which faces are present.
#[verifier::rlimit(100)]
fn bake_element(atlas: &Atlas, textures: &Vec<(String, TextureValue)>, e: &Element) -> (r:
    BlockModelFaces)
    ensures
        element_matches(r, spec_bake_element(atlas@, textures@, *e)),
        r.wf(),
{
    let south = compute_face_data(atlas, textures, &e.south);
    let west = compute_face_data(atlas, textures, &e.west);
    let north = compute_face_data(atlas, textures, &e.north);
    let east = compute_face_data(atlas, textures, &e.east);
    let up = compute_face_data(atlas, textures, &e.up);
    let down = compute_face_data(atlas, textures, &e.down);

    let ca = [16 - (e.from[0] as i32), e.from[1] as i32, e.from[2] as i32];
    let cb = [16 - (e.to[0] as i32), e.from[1] as i32, e.from[2] as i32];
    let cc = [16 - (e.to[0] as i32), e.to[1] as i32, e.from[2] as i32];
    let cd = [16 - (e.from[0] as i32), e.to[1] as i32, e.from[2] as i32];
    let ce = [16 - (e.from[0] as i32), e.from[1] as i32, e.to[2] as i32];
    let cf = [16 - (e.to[0] as i32), e.from[1] as i32, e.to[2] as i32];
    let cg = [16 - (e.to[0] as i32), e.to[1] as i32, e.to[2] as i32];
    let ch = [16 - (e.from[0] as i32), e.to[1] as i32, e.to[2] as i32];

    let vertices: [BlockMeshVertex; 24] = [
        BlockMeshVertex {
            position: ch,
            tex_coords: [south.1.1.0, south.1.0.1],
            normal: [0i8, 0i8, 1i8],
            animation_uv_offset: south.2,
        },
        BlockMeshVertex {
            position: cg,
            tex_coords: [south.1.0.0, south.1.0.1],
            normal: [0i8, 0i8, 1i8],
            animation_uv_offset: south.2,
        },
        BlockMeshVertex {
            position: cf,
            tex_coords: [south.1.0.0, south.1.1.1],
            normal: [0i8, 0i8, 1i8],
            animation_uv_offset: south.2,
        },
        BlockMeshVertex {
            position: ce,
            tex_coords: [south.1.1.0, south.1.1.1],
            normal: [0i8, 0i8, 1i8],
            animation_uv_offset: south.2,
        },
        BlockMeshVertex {
            position: cf,
            tex_coords: [west.1.1.0, west.1.1.1],
            normal: [-1i8, 0i8, 0i8],
            animation_uv_offset: west.2,
        },
        BlockMeshVertex {
            position: cg,
            tex_coords: [west.1.1.0, west.1.0.1],
            normal: [-1i8, 0i8, 0i8],
            animation_uv_offset: west.2,
        },
        BlockMeshVertex {
            position: cc,
            tex_coords: [west.1.0.0, west.1.0.1],
            normal: [-1i8, 0i8, 0i8],
            animation_uv_offset: west.2,
        },
        BlockMeshVertex {
            position: cb,
            tex_coords: [west.1.0.0, west.1.1.1],
            normal: [-1i8, 0i8, 0i8],
            animation_uv_offset: west.2,
        },
        BlockMeshVertex {
            position: ca,
            tex_coords: [north.1.0.0, north.1.1.1],
            normal: [0i8, 0i8, -1i8],
            animation_uv_offset: north.2,
        },
        BlockMeshVertex {
            position: cb,
            tex_coords: [north.1.1.0, north.1.1.1],
            normal: [0i8, 0i8, -1i8],
            animation_uv_offset: north.2,
        },
        BlockMeshVertex {
            position: cc,
            tex_coords: [north.1.1.0, north.1.0.1],
            normal: [0i8, 0i8, -1i8],
            animation_uv_offset: north.2,
        },
        BlockMeshVertex {
            position: cd,
            tex_coords: [north.1.0.0, north.1.0.1],
            normal: [0i8, 0i8, -1i8],
            animation_uv_offset: north.2,
        },
        BlockMeshVertex {
            position: ch,
            tex_coords: [east.1.0.0, east.1.0.1],
            normal: [1i8, 0i8, 0i8],
            animation_uv_offset: east.2,
        },
        BlockMeshVertex {
            position: ce,
            tex_coords: [east.1.0.0, east.1.1.1],
            normal: [1i8, 0i8, 0i8],
            animation_uv_offset: east.2,
        },
        BlockMeshVertex {
            position: ca,
            tex_coords: [east.1.1.0, east.1.1.1],
            normal: [1i8, 0i8, 0i8],
            animation_uv_offset: east.2,
        },
        BlockMeshVertex {
            position: cd,
            tex_coords: [east.1.1.0, east.1.0.1],
            normal: [1i8, 0i8, 0i8],
            animation_uv_offset: east.2,
        },
        BlockMeshVertex {
            position: cd,
            tex_coords: [up.1.0.0, up.1.1.1],
            normal: [0i8, 1i8, 0i8],
            animation_uv_offset: up.2,
        },
        BlockMeshVertex {
            position: cc,
            tex_coords: [up.1.1.0, up.1.1.1],
            normal: [0i8, 1i8, 0i8],
            animation_uv_offset: up.2,
        },
        BlockMeshVertex {
            position: cg,
            tex_coords: [up.1.1.0, up.1.0.1],
            normal: [0i8, 1i8, 0i8],
            animation_uv_offset: up.2,
        },
        BlockMeshVertex {
            position: ch,
            tex_coords: [up.1.0.0, up.1.0.1],
            normal: [0i8, 1i8, 0i8],
            animation_uv_offset: up.2,
        },
        BlockMeshVertex {
            position: ce,
            tex_coords: [down.1.1.0, down.1.1.1],
            normal: [0i8, -1i8, 0i8],
            animation_uv_offset: down.2,
        },
        BlockMeshVertex {
            position: cf,
            tex_coords: [down.1.0.0, down.1.1.1],
            normal: [0i8, -1i8, 0i8],
            animation_uv_offset: down.2,
        },
        BlockMeshVertex {
            position: cb,
            tex_coords: [down.1.0.0, down.1.0.1],
            normal: [0i8, -1i8, 0i8],
            animation_uv_offset: down.2,
        },
        BlockMeshVertex {
            position: ca,
            tex_coords: [down.1.1.0, down.1.0.1],
            normal: [0i8, -1i8, 0i8],
            animation_uv_offset: down.2,
        },
    ];

    let is_cube = e.from[0] == 0 && e.from[1] == 0 && e.from[2] == 0 && e.to[0] == 16 && e.to[1]
        == 16 && e.to[2] == 16;

    let r = BlockModelFaces {
        vertices,
        south: if south.0 {
            Some(Face { vert_index: 0, tint_index: south.3 })
        } else {
            None
        },
        west: if west.0 {
            Some(Face { vert_index: 4, tint_index: west.3 })
        } else {
            None
        },
        north: if north.0 {
            Some(Face { vert_index: 8, tint_index: north.3 })
        } else {
            None
        },
        east: if east.0 {
            Some(Face { vert_index: 12, tint_index: east.3 })
        } else {
            None
        },
        up: if up.0 {
            Some(Face { vert_index: 16, tint_index: up.3 })
        } else {
            None
        },
        down: if down.0 {
            Some(Face { vert_index: 20, tint_index: down.3 })
        } else {
            None
        },
        cube: is_cube,
    };
    proof {
        let be = spec_bake_element(atlas@, textures@, *e);
        assert(r.vertices@ =~= be.vertices);
        assert(r.cube == be.cube);
    }
    r
}

/// The resolved model one blockstate property names: its root schema fetched
/// by name, then resolved through its parent chain.
pub open spec fn spec_property_model<P: ResourceProvider>(p: P, name: Seq<char>) -> Result<
    MergedModel,
    ResolveErr,
> {
    match p.spec_model(spec_model_path(name)) {
        Err(ResourceError::NotFound) => Err(ResolveErr::MissingResource(spec_model_path(name))),
        Err(ResourceError::Malformed) => Err(ResolveErr::MalformedResource(spec_model_path(name))),
        Ok(root) => spec_resolve_model(p, root, MAX_PARENT_DEPTH as nat),
    }
}

/// The resolved models of the first `n` properties; the first failure wins.
pub open spec fn spec_resolved_models<P: ResourceProvider>(
    p: P,
    props: Seq<ModelProperties>,
    n: int,
) -> Result<Seq<MergedModel>, ResolveErr>
    decreases n,
{
    if n <= 0 {
        Ok(Seq::empty())
    } else {
        match spec_resolved_models(p, props, n - 1) {
            Err(e) => Err(e),
            Ok(prev) => match spec_property_model(p, props[n - 1].model@) {
                Err(e) => Err(e),
                Ok(m) => Ok(prev.push(m)),
            },
        }
    }
}

/// Once resolution fails on a prefix of the properties, every longer prefix
/// fails the same way.
proof fn lemma_resolved_models_error_persists<P: ResourceProvider>(
    p: P,
    props: Seq<ModelProperties>,
    a: int,
    b: int,
)
    requires
        0 <= a <= b,
        spec_resolved_models(p, props, a) is Err,
    ensures
        spec_resolved_models(p, props, b) == spec_resolved_models(p, props, a),
    decreases b - a,
{
    if a < b {
        lemma_resolved_models_error_persists(p, props, a, b - 1);
    }
}

/// The batch of textures one model adds to the atlas: each slot's texture
/// path, in slot order, that the atlas does not hold yet and the provider
/// can supply. (A slot still holding a reference supplies nothing.)
pub open spec fn spec_model_batch<P: ResourceProvider>(
    p: P,
    a: AtlasModel,
    textures: Seq<(String, TextureValue)>,
    n: int,
) -> Seq<(String, TextureImage)>
    decreases n,
{
    if n <= 0 {
        Seq::empty()
    } else {
        let prev = spec_model_batch(p, a, textures, n - 1);
        match textures[n - 1].1 {
            TextureValue::Path(path) => {
                if spec_get_uv(a.entries, path@) is None {
                    match p.spec_texture(spec_texture_path(path@)) {
                        Some(img) => prev.push((path, img)),
                        None => prev,
                    }
                } else {
                    prev
                }
            },
            TextureValue::Reference(_) => prev,
        }
    }
}

/// The atlas after the first `n` models' missing textures are packed, model
/// by model in property order.
pub open spec fn spec_atlas_after_models<P: ResourceProvider>(
    p: P,
    a: AtlasModel,
    models: Seq<MergedModel>,
    n: int,
) -> AtlasModel
    decreases n,
{
    if n <= 0 {
        a
    } else {
        let prev = spec_atlas_after_models(p, a, models, n - 1);
        let batch = spec_model_batch(
            p,
            prev,
            models[n - 1].textures,
            models[n - 1].textures.len() as int,
        );
        spec_allocate(prev, batch, batch.len() as int)
    }
}

/// A model's elements; a model that declares none has no geometry.
pub open spec fn spec_model_elements(m: MergedModel) -> Seq<Element> {
    match m.elements {
        Some(es) => es,
        None => Seq::empty(),
    }
}

/// The baked form of the first `n` elements of one model.
pub open spec fn spec_baked_elements(
    a: AtlasModel,
    textures: Seq<(String, TextureValue)>,
    es: Seq<Element>,
    n: int,
) -> Seq<BakedElement>
    decreases n,
{
    if n <= 0 {
        Seq::empty()
    } else {
        spec_baked_elements(a, textures, es, n - 1).push(
            spec_bake_element(a, textures, es[n - 1]),
        )
    }
}

/// The baked elements of the first `n` models, concatenated in order.
pub open spec fn spec_baked_models(a: AtlasModel, models: Seq<MergedModel>, n: int) -> Seq<
    BakedElement,
>
    decreases n,
{
    if n <= 0 {
        Seq::empty()
    } else {
        let es = spec_model_elements(models[n - 1]);
        spec_baked_models(a, models, n - 1) + spec_baked_elements(
            a,
            models[n - 1].textures,
            es,
            es.len() as int,
        )
    }
}

/// Whether the first `n` elements all span the full unit cube.
pub open spec fn spec_elements_all_cubes(es: Seq<Element>, n: int) -> bool
    decreases n,
{
    if n <= 0 {
        true
    } else {
        spec_elements_all_cubes(es, n - 1) && spec_element_is_cube(es[n - 1])
    }
}

/// Whether every element of the first `n` models spans the full unit cube.
pub open spec fn spec_models_all_cubes(models: Seq<MergedModel>, n: int) -> bool
    decreases n,
{
    if n <= 0 {
        true
    } else {
        let es = spec_model_elements(models[n - 1]);
        spec_models_all_cubes(models, n - 1) && spec_elements_all_cubes(es, es.len() as int)
    }
}

/// An executable mesh agrees element for element with its specification.
pub open spec fn mesh_matches(mesh: Seq<BlockModelFaces>, baked: Seq<BakedElement>) -> bool {
    &&& mesh.len() == baked.len()
    &&& forall|j: int| 0 <= j < mesh.len() ==> element_matches(#[trigger] mesh[j], baked[j])
}

/// A bake error agrees with the specification failure it reports.
pub open spec fn bake_err_matches(e: MeshBakeError, o: ResolveErr) -> bool {
    match (e, o) {
        (MeshBakeError::UnresolvedResourcePath(s), ResolveErr::MissingResource(pv)) => s@ == pv,
        (MeshBakeError::MalformedModel(s), ResolveErr::MalformedResource(pv)) => s@ == pv,
        (MeshBakeError::ParentChainTooDeep(s), ResolveErr::ChainTooDeep(n)) => s@ == n,
        (MeshBakeError::UnresolvedTextureReference(s), ResolveErr::UnresolvedRef(k)) => s@ == k,
        _ => false,
    }
}

impl ModelMesh {
    /// Bake the models a blockstate's properties name into a mesh: resolve
    /// each model through its parent chain, pack every texture the atlas is
    /// missing (fetching its bytes from the resource provider), and lay each
    /// element out as 24 vertices with atlas UV rectangles. The mesh is a
    /// full cube exactly when every element of every model spans the unit
    /// cube, and it is marked transparent when the render settings say the
    /// block is not opaque. A resolution failure leaves the atlas untouched
    /// and reports which model or texture failed.
    pub fn bake<P: ResourceProvider>(
        model_properties: &Vec<ModelProperties>,
        resource_provider: &P,
        block_atlas: &mut Atlas,
        settings: &RenderSettings,
    ) -> (r: Result<ModelMesh, MeshBakeError>)
        requires
            atlas_wf(old(block_atlas)@),
        ensures
            atlas_wf(final(block_atlas)@),
            match (
                r,
                spec_resolved_models(
                    *resource_provider,
                    model_properties@,
                    model_properties@.len() as int,
                ),
            ) {
                (Ok(mesh), Ok(models)) => {
                    &&& final(block_atlas)@ == spec_atlas_after_models(
                        *resource_provider,
                        old(block_atlas)@,
                        models,
                        models.len() as int,
                    )
                    &&& mesh.transparent == !settings.opaque
                    &&& mesh.is_cube == spec_models_all_cubes(models, models.len() as int)
                    &&& mesh_matches(
                        mesh.mesh@,
                        spec_baked_models(final(block_atlas)@, models, models.len() as int),
                    )
                    &&& mesh.wf()
                },
                (Err(e), Err(o)) => bake_err_matches(e, o) && final(block_atlas)@ == old(
                    block_atlas,
                )@,
                _ => false,
            },
    {
        let ghost props = model_properties@;
        let ghost p = *resource_provider;

        // Resolve the model of every property; no failure touches the atlas.
        let mut models: Vec<Model> = Vec::new();
        let mut i: usize = 0;
        while i < model_properties.len()
            invariant
                i <= props.len(),
                model_properties@ == props,
                *resource_provider == p,
                block_atlas@ == old(block_atlas)@,
                atlas_wf(block_atlas@),
                models@.len() == i,
                match spec_resolved_models(p, props, i as int) {
                    Ok(sm) => sm.len() == i && forall|j: int|
                        0 <= j < i ==> crate::model::merged_of(#[trigger] models@[j]) == sm[j],
                    Err(_) => false,
                },
            decreases props.len() - i,
        {
            let name = clone_string(&model_properties[i].model);
            let path = model_resource_path(&name);
            let root = match resource_provider.get_model(&path) {
                Ok(m) => m,
                Err(ResourceError::NotFound) => {
                    proof {
                        lemma_resolved_models_error_persists(
                            p,
                            props,
                            i as int + 1,
                            props.len() as int,
                        );
                    }
                    return Err(MeshBakeError::UnresolvedResourcePath(path));
                },
                Err(ResourceError::Malformed) => {
                    proof {
                        lemma_resolved_models_error_persists(
                            p,
                            props,
                            i as int + 1,
                            props.len() as int,
                        );
                    }
                    return Err(MeshBakeError::MalformedModel(path));
                },
            };
            match resolve_model(root, resource_provider) {
                Ok(m) => {
                    models.push(m);
                },
                Err(e) => {
                    proof {
                        lemma_resolved_models_error_persists(
                            p,
                            props,
                            i as int + 1,
                            props.len() as int,
                        );
                    }
                    return Err(e);
                },
            }
            i = i + 1;
        }

        let ghost sm = (match spec_resolved_models(p, props, props.len() as int) {
            Ok(s) => s,
            Err(_) => Seq::empty(),
        });
        let ghost atlas0 = block_atlas@;

        // Pack each model's missing textures, model by model.
        let mut i: usize = 0;
        while i < models.len()
            invariant
                i <= models@.len(),
                models@.len() == sm.len(),
                forall|j: int|
                    0 <= j < sm.len() ==> crate::model::merged_of(#[trigger] models@[j]) == sm[j],
                *resource_provider == p,
                atlas_wf(block_atlas@),
                block_atlas@ == spec_atlas_after_models(p, atlas0, sm, i as int),
            decreases models@.len() - i,
        {
            let m = &models[i];
            let mut batch: Vec<(String, TextureImage)> = Vec::new();
            let mut j: usize = 0;
            while j < m.textures.len()
                invariant
                    j <= m.textures@.len(),
                    *resource_provider == p,
                    batch@ == spec_model_batch(p, block_atlas@, m.textures@, j as int),
                decreases m.textures@.len() - j,
            {
                match &m.textures[j].1 {
                    TextureValue::Path(path) => {
                        if block_atlas.get_uv(path).is_none() {
                            let tex_path = texture_resource_path(path);
                            match resource_provider.get_texture(&tex_path) {
                                Some(img) => {
                                    let owned_path = clone_string(path);
                                    batch.push((owned_path, img));
                                },
                                None => {},
                            }
                        }
                    },
                    TextureValue::Reference(_) => {},
                }
                j = j + 1;
            }
            block_atlas.allocate(&batch);
            i = i + 1;
        }

        let ghost atlas1 = block_atlas@;

        // Bake every element of every model against the final atlas.
        let mut mesh_vec: Vec<BlockModelFaces> = Vec::new();
        let mut all_cubes: bool = true;
        let mut i: usize = 0;
        while i < models.len()
            invariant
                i <= models@.len(),
                models@.len() == sm.len(),
                forall|j: int|
                    0 <= j < sm.len() ==> crate::model::merged_of(#[trigger] models@[j]) == sm[j],
                atlas_wf(block_atlas@),
                block_atlas@ == atlas1,
                mesh_matches(mesh_vec@, spec_baked_models(atlas1, sm, i as int)),
                all_cubes == spec_models_all_cubes(sm, i as int),
                forall|j: int| 0 <= j < mesh_vec@.len() ==> (#[trigger] mesh_vec@[j]).wf(),
            decreases models@.len() - i,
        {
            let m = &models[i];
            let ghost es = spec_model_elements(sm[i as int]);
            let ghost texs = sm[i as int].textures;
            match &m.elements {
                None => {
                    proof {
                        assert(spec_baked_models(atlas1, sm, i as int + 1) =~= spec_baked_models(
                            atlas1,
                            sm,
                            i as int,
                        ));
                    }
                },
                Some(elements) => {
                    let mut j: usize = 0;
                    while j < elements.len()
                        invariant
                            j <= elements@.len(),
                            elements@ == es,
                            m.textures@ == texs,
                            atlas_wf(block_atlas@),
                            block_atlas@ == atlas1,
                            mesh_matches(
                                mesh_vec@,
                                spec_baked_models(atlas1, sm, i as int) + spec_baked_elements(
                                    atlas1,
                                    texs,
                                    es,
                                    j as int,
                                ),
                            ),
                            forall|k: int|
                                0 <= k < mesh_vec@.len() ==> (#[trigger] mesh_vec@[k]).wf(),
                            all_cubes == (spec_models_all_cubes(sm, i as int)
                                && spec_elements_all_cubes(es, j as int)),
                        decreases elements@.len() - j,
                    {
                        let bf = bake_element(block_atlas, &m.textures, &elements[j]);
                        all_cubes = all_cubes && bf.cube;
                        mesh_vec.push(bf);
                        proof {
                            let prefix = spec_baked_models(atlas1, sm, i as int);
                            let full_old = prefix + spec_baked_elements(
                                atlas1,
                                texs,
                                es,
                                j as int,
                            );
                            let full_new = prefix + spec_baked_elements(
                                atlas1,
                                texs,
                                es,
                                j as int + 1,
                            );
                            assert(full_new =~= full_old.push(
                                spec_bake_element(atlas1, texs, es[j as int]),
                            ));
                            assert forall|k: int|
                                0 <= k < mesh_vec@.len() implies element_matches(
                                #[trigger] mesh_vec@[k],
                                full_new[k],
                            ) by {}
                        }
                        j = j + 1;
                    }
                    proof {
                        assert(spec_baked_models(atlas1, sm, i as int + 1) =~= spec_baked_models(
                            atlas1,
                            sm,
                            i as int,
                        ) + spec_baked_elements(atlas1, texs, es, es.len() as int));
                    }
                },
            }
            i = i + 1;
        }

        Ok(ModelMesh { mesh: mesh_vec, is_cube: all_cubes, transparent: !settings.opaque })
    }
}

} // verus!
