use wgpu_mc::atlas::{Atlas, TextureImage};
use wgpu_mc::mesh::ModelMesh;
use wgpu_mc::mesh::RenderSettings;
use wgpu_mc::model::{
    resolve_model, Element, ElementFace, MeshBakeError, Model, ModelProperties,
    ResourceProvider, StoredResources, TextureValue,
};

fn stone_texture() -> (String, TextureImage) {
    (
        "textures/block/stone.png".to_owned(),
        TextureImage {
            width: 16,
            height: 16,
        },
    )
}

fn full_cube_element(face_texture: TextureValue) -> Element {
    Element {
        from: [0, 0, 0],
        to: [16, 16, 16],
        north: Some(ElementFace {
            texture: face_texture,
            uv: None,
            tint_index: -1,
        }),
        east: None,
        south: None,
        west: None,
        up: None,
        down: None,
    }
}

fn chain_provider(c_defines_base: bool) -> StoredResources {
    let a = Model {
        parent: Some("b".to_owned()),
        textures: vec![("side".to_owned(), TextureValue::Reference("base".to_owned()))],
        elements: Some(vec![full_cube_element(TextureValue::Reference(
            "side".to_owned(),
        ))]),
    };
    let b = Model {
        parent: Some("c".to_owned()),
        textures: vec![("side".to_owned(), TextureValue::Reference("base".to_owned()))],
        elements: None,
    };
    let c = Model {
        parent: None,
        textures: if c_defines_base {
            vec![(
                "base".to_owned(),
                TextureValue::Path("block/stone".to_owned()),
            )]
        } else {
            vec![]
        },
        elements: None,
    };
    StoredResources {
        models: vec![
            ("models/a.json".to_owned(), a),
            ("models/b.json".to_owned(), b),
            ("models/c.json".to_owned(), c),
        ],
        malformed: vec![],
        textures: vec![stone_texture()],
    }
}

#[test]
fn parent_chain_substitutes_through_grandparent() {
    let provider = chain_provider(true);
    let root = provider.get_model(&"models/a.json".to_owned()).unwrap();
    let resolved = resolve_model(root, &provider).unwrap();
    assert!(resolved.parent.is_none());
    // "side" was overridden by A as a reference into C's definition and is
    // now fully substituted: no residual reference anywhere
    let side = resolved
        .textures
        .iter()
        .find(|(k, _)| k == "side")
        .map(|(_, v)| v.clone())
        .unwrap();
    assert_eq!(side, TextureValue::Path("block/stone".to_owned()));
    for (_, v) in &resolved.textures {
        assert!(matches!(v, TextureValue::Path(_)));
    }
    // the child kept its own elements
    assert_eq!(resolved.elements.as_ref().map(|e| e.len()), Some(1));
}

#[test]
fn undefined_reference_target_fails_resolution() {
    let provider = chain_provider(false);
    let root = provider.get_model(&"models/a.json".to_owned()).unwrap();
    match resolve_model(root, &provider) {
        Err(MeshBakeError::UnresolvedTextureReference(key)) => assert_eq!(key, "side"),
        other => panic!("expected an unresolved texture reference, got {:?}", other.is_ok()),
    }
}

#[test]
fn missing_parent_is_a_missing_resource() {
    let provider = StoredResources {
        models: vec![(
            "models/a.json".to_owned(),
            Model {
                parent: Some("gone".to_owned()),
                textures: vec![],
                elements: None,
            },
        )],
        malformed: vec![],
        textures: vec![],
    };
    let root = provider.get_model(&"models/a.json".to_owned()).unwrap();
    match resolve_model(root, &provider) {
        Err(MeshBakeError::UnresolvedResourcePath(path)) => {
            assert_eq!(path, "models/gone.json")
        },
        _ => panic!("expected a missing resource"),
    }
}

#[test]
fn malformed_parent_is_reported() {
    let provider = StoredResources {
        models: vec![(
            "models/a.json".to_owned(),
            Model {
                parent: Some("bad".to_owned()),
                textures: vec![],
                elements: None,
            },
        )],
        malformed: vec!["models/bad.json".to_owned()],
        textures: vec![],
    };
    let root = provider.get_model(&"models/a.json".to_owned()).unwrap();
    match resolve_model(root, &provider) {
        Err(MeshBakeError::MalformedModel(path)) => assert_eq!(path, "models/bad.json"),
        _ => panic!("expected a malformed model"),
    }
}

#[test]
fn cyclic_parent_chain_is_reported() {
    let looping = Model {
        parent: Some("a".to_owned()),
        textures: vec![],
        elements: None,
    };
    let provider = StoredResources {
        models: vec![("models/a.json".to_owned(), looping.clone())],
        malformed: vec![],
        textures: vec![],
    };
    match resolve_model(looping, &provider) {
        Err(MeshBakeError::ParentChainTooDeep(name)) => assert_eq!(name, "a"),
        _ => panic!("expected a too-deep parent chain"),
    }
}

#[test]
fn bake_produces_cube_mesh_with_atlas_uvs() {
    let provider = chain_provider(true);
    let mut atlas = Atlas::new();
    let props = vec![ModelProperties {
        model: "a".to_owned(),
    }];
    let settings = RenderSettings { opaque: true };
    let mesh = ModelMesh::bake(&props, &provider, &mut atlas, &settings).unwrap();
    assert!(mesh.is_cube);
    assert!(!mesh.transparent);
    assert_eq!(mesh.mesh.len(), 1);
    let faces = &mesh.mesh[0];
    // only the north face was declared (and found its texture)
    let north = faces.north.unwrap();
    assert_eq!(north.vert_index, 8);
    assert_eq!(north.tint_index, -1);
    assert!(faces.south.is_none());
    assert!(faces.up.is_none());
    // the texture was auto-packed at the atlas origin, 16 x 16
    let uv = atlas.get_uv(&"block/stone".to_owned()).unwrap();
    assert_eq!(uv, ((0, 0), (16, 16)));
    // the north face's first vertex samples the rectangle's corners
    let v8 = faces.vertices[8];
    assert_eq!(v8.tex_coords, [0, 16]);
    let v10 = faces.vertices[10];
    assert_eq!(v10.tex_coords, [16, 0]);
    // positions are mirrored on X: corner a of the unit cube is (16, 0, 0)
    assert_eq!(v8.position, [16, 0, 0]);
}

#[test]
fn bake_missing_model_is_an_unresolved_path() {
    let provider = StoredResources {
        models: vec![],
        malformed: vec![],
        textures: vec![],
    };
    let mut atlas = Atlas::new();
    let props = vec![ModelProperties {
        model: "nope".to_owned(),
    }];
    let settings = RenderSettings { opaque: true };
    match ModelMesh::bake(&props, &provider, &mut atlas, &settings) {
        Err(MeshBakeError::UnresolvedResourcePath(p)) => assert_eq!(p, "models/nope.json"),
        _ => panic!("expected a missing model"),
    }
    // a failed bake leaves the atlas untouched
    assert!(atlas.get_uv(&"block/stone".to_owned()).is_none());
}

#[test]
fn bake_of_partial_cube_is_complex() {
    let slab = Element {
        from: [0, 0, 0],
        to: [16, 8, 16],
        north: Some(ElementFace {
            texture: TextureValue::Reference("all".to_owned()),
            uv: Some([0, 0, 16, 8]),
            tint_index: 2,
        }),
        east: None,
        south: None,
        west: None,
        up: None,
        down: None,
    };
    let provider = StoredResources {
        models: vec![(
            "models/slab.json".to_owned(),
            Model {
                parent: None,
                textures: vec![(
                    "all".to_owned(),
                    TextureValue::Path("block/stone".to_owned()),
                )],
                elements: Some(vec![slab]),
            },
        )],
        malformed: vec![],
        textures: vec![stone_texture()],
    };
    let mut atlas = Atlas::new();
    let props = vec![ModelProperties {
        model: "slab".to_owned(),
    }];
    let settings = RenderSettings { opaque: false };
    let mesh = ModelMesh::bake(&props, &provider, &mut atlas, &settings).unwrap();
    assert!(!mesh.is_cube);
    assert!(mesh.transparent);
    let north = mesh.mesh[0].north.unwrap();
    assert_eq!(north.tint_index, 2);
    // the face-local sub-rectangle shifted the atlas UV
    let v10 = mesh.mesh[0].vertices[10];
    assert_eq!(v10.tex_coords, [16, 0]);
    let v9 = mesh.mesh[0].vertices[9];
    assert_eq!(v9.tex_coords, [16, 8]);
}
