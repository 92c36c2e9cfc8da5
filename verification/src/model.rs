//! Block-model schemas and the model resolver: a model may declare a parent,
//! whose chain is fetched and merged (child declarations override the
//! parent's), and texture slots may reference other slots by name; every
//! reference must be substituted by a concrete texture path before a model
//! is handed to the baker.

use vstd::prelude::*;
use vstd::string::StringExecFns;

use crate::atlas::TextureImage;

verus! {

/// How many parent links a model chain may follow before resolution gives
/// up; a longer chain is reported instead of looping forever.
pub const MAX_PARENT_DEPTH: usize = 64;

/// One model variant a blockstate selects.
pub struct ModelProperties {
    /// The model's resource name, e.g. `block/anvil`.
    pub model: String,
}

/// A texture slot's value: either a concrete texture path or a reference to
/// another slot (written `#name` in the source schema).
#[derive(Debug, Clone, PartialEq)]
pub enum TextureValue {
    Path(String),
    Reference(String),
}

/// One face of a model element.
#[derive(Debug, Clone, PartialEq)]
pub struct ElementFace {
    /// The texture slot or path this face draws from.
    pub texture: TextureValue,
    /// The face-local UV sub-rectangle in model units (0..=16); the full
    /// quad when absent.
    pub uv: Option<[u16; 4]>,
    /// Which biome tint applies; -1 for none.
    pub tint_index: i32,
}

/// One cuboid element of a model, spanning `from..to` in model units
/// (sixteenths of a block), with up to six faces.
#[derive(Debug, Clone, PartialEq)]
pub struct Element {
    pub from: [i16; 3],
    pub to: [i16; 3],
    pub north: Option<ElementFace>,
    pub east: Option<ElementFace>,
    pub south: Option<ElementFace>,
    pub west: Option<ElementFace>,
    pub up: Option<ElementFace>,
    pub down: Option<ElementFace>,
}

/// A block-model schema as the resource provider parses it.
#[derive(Debug, Clone, PartialEq)]
pub struct Model {
    /// The resource name of the parent model, if any.
    pub parent: Option<String>,
    /// Named texture slots.
    pub textures: Vec<(String, TextureValue)>,
    /// The model's geometry; `None` means the model inherits its parent's.
    pub elements: Option<Vec<Element>>,
}

/// Why fetching or parsing a resource failed: the resource is absent, or its
/// content could not be understood.
#[derive(Debug, Clone, Copy, PartialEq, Eq, Structural)]
pub enum ResourceError {
    NotFound,
    Malformed,
}

/// Why baking a model failed. Each variant carries the offending path or
/// texture key.
#[derive(Debug, Clone, PartialEq)]
pub enum MeshBakeError {
    /// A texture slot still held a reference after the merge, because its
    /// target is never defined (or the references form a cycle).
    UnresolvedTextureReference(String),
    /// A model file is absent.
    UnresolvedResourcePath(String),
    /// A model file exists but could not be parsed.
    MalformedModel(String),
    /// The parent chain is longer than [`MAX_PARENT_DEPTH`].
    ParentChainTooDeep(String),
}

/// A merged model: what remains of a model once its parent chain has been
/// folded in.
pub ghost struct MergedModel {
    pub parent: Option<String>,
    pub textures: Seq<(String, TextureValue)>,
    pub elements: Option<Seq<Element>>,
}

/// How resolution fails, at the specification level.
pub ghost enum ResolveErr {
    MissingResource(Seq<char>),
    MalformedResource(Seq<char>),
    ChainTooDeep(Seq<char>),
    UnresolvedRef(Seq<char>),
}

/// The merged view of a schema as parsed.
pub open spec fn merged_of(m: Model) -> MergedModel {
    MergedModel {
        parent: m.parent,
        textures: m.textures@,
        elements: match m.elements {
            Some(v) => Some(v@),
            None => None,
        },
    }
}

/// Supplies parsed models and raw textures by resource path. Implemented
/// outside the core (assets live on disk or in a host byte store); the spec
/// functions fix what each path returns, so a provider must answer
/// consistently while a bake is running. Absent resources must be
/// distinguished from malformed ones.
pub trait ResourceProvider: Sized {
    /// The content of the model this provider serves at the given path.
    spec fn spec_model(&self, path: Seq<char>) -> Result<MergedModel, ResourceError>;

    /// The texture this provider serves at the given path.
    spec fn spec_texture(&self, path: Seq<char>) -> Option<TextureImage>;

    fn get_model(&self, path: &String) -> (r: Result<Model, ResourceError>)
        ensures
            model_result_matches(r, self.spec_model(path@)),
    ;

    fn get_texture(&self, path: &String) -> (r: Option<TextureImage>)
        ensures
            r == self.spec_texture(path@),
    ;
}

/// A fetched model agrees with the content the provider's specification
/// serves: same parent link, texture table and elements, or the same error.
pub open spec fn model_result_matches(
    r: Result<Model, ResourceError>,
    o: Result<MergedModel, ResourceError>,
) -> bool {
    match (r, o) {
        (Ok(m), Ok(v)) => merged_of(m) == v,
        (Err(e1), Err(e2)) => e1 == e2,
        _ => false,
    }
}

/// The resource path of a model: `models/<name>.json`.
pub open spec fn spec_model_path(name: Seq<char>) -> Seq<char> {
    "models/"@ + name + ".json"@
}

/// Build the resource path of a model.
pub fn model_resource_path(name: &String) -> (r: String)
    ensures
        r@ == spec_model_path(name@),
{
    let mut s: String = "models/".to_owned();
    s.append(name.as_str());
    s.append(".json");
    s
}

/// The resource path of a texture: `textures/<name>.png`.
pub open spec fn spec_texture_path(name: Seq<char>) -> Seq<char> {
    "textures/"@ + name + ".png"@
}

/// Build the resource path of a texture.
pub fn texture_resource_path(name: &String) -> (r: String)
    ensures
        r@ == spec_texture_path(name@),
{
    let mut s: String = "textures/".to_owned();
    s.append(name.as_str());
    s.append(".png");
    s
}

/// The value of the texture slot named `key`, scanning from index `i`.
pub open spec fn tex_find_from(
    textures: Seq<(String, TextureValue)>,
    key: Seq<char>,
    i: int,
) -> Option<TextureValue>
    decreases textures.len() - i,
{
    if i < 0 || i >= textures.len() {
        None
    } else if textures[i].0@ == key {
        Some(textures[i].1)
    } else {
        tex_find_from(textures, key, i + 1)
    }
}

/// The value of the texture slot named `key`, if any.
pub open spec fn spec_tex_find(textures: Seq<(String, TextureValue)>, key: Seq<char>) -> Option<
    TextureValue,
> {
    tex_find_from(textures, key, 0)
}

/// The child's texture table extended by the first `n` parent slots whose
/// names the table does not yet hold: the child overrides, the parent
/// extends.
pub open spec fn spec_tex_union(
    acc: Seq<(String, TextureValue)>,
    parent: Seq<(String, TextureValue)>,
    n: int,
) -> Seq<(String, TextureValue)>
    decreases n,
{
    if n <= 0 {
        acc
    } else {
        let prev = spec_tex_union(acc, parent, n - 1);
        if spec_tex_find(prev, parent[n - 1].0@) is Some {
            prev
        } else {
            prev.push(parent[n - 1])
        }
    }
}

/// One merge step: the child keeps its own elements and textures, fills
/// texture slots it lacks from the parent, and takes over the parent's own
/// parent link.
pub open spec fn spec_merge_under(child: MergedModel, parent: MergedModel) -> MergedModel {
    MergedModel {
        parent: parent.parent,
        textures: spec_tex_union(child.textures, parent.textures, parent.textures.len() as int),
        elements: if child.elements is Some {
            child.elements
        } else {
            parent.elements
        },
    }
}

/// Fold the parent chain into `acc`: fetch the parent, merge it under the
/// accumulated model, and continue until no parent remains or the fuel runs
/// out.
pub open spec fn spec_chain_merge<P: ResourceProvider>(
    p: P,
    acc: MergedModel,
    fuel: nat,
) -> Result<MergedModel, ResolveErr>
    decreases fuel,
{
    match acc.parent {
        None => Ok(acc),
        Some(name) => {
            if fuel == 0 {
                Err(ResolveErr::ChainTooDeep(name@))
            } else {
                match p.spec_model(spec_model_path(name@)) {
                    Err(ResourceError::NotFound) => Err(
                        ResolveErr::MissingResource(spec_model_path(name@)),
                    ),
                    Err(ResourceError::Malformed) => Err(
                        ResolveErr::MalformedResource(spec_model_path(name@)),
                    ),
                    Ok(parent) => spec_chain_merge(
                        p,
                        spec_merge_under(acc, parent),
                        (fuel - 1) as nat,
                    ),
                }
            }
        },
    }
}

/// Follow a texture value's reference chain through the table: the concrete
/// path it ends at, or `None` when a referenced slot is missing or the
/// chain does not end within `fuel` hops (a cycle never does).
pub open spec fn spec_resolve_ref(
    textures: Seq<(String, TextureValue)>,
    v: TextureValue,
    fuel: nat,
) -> Option<String>
    decreases fuel,
{
    match v {
        TextureValue::Path(s) => Some(s),
        TextureValue::Reference(k) => {
            if fuel == 0 {
                None
            } else {
                match spec_tex_find(textures, k@) {
                    None => None,
                    Some(next) => spec_resolve_ref(textures, next, (fuel - 1) as nat),
                }
            }
        },
    }
}

/// Substitute the first `n` texture slots: each reference is replaced by the
/// concrete path its chain ends at; a slot whose chain ends nowhere fails
/// the whole substitution.
pub open spec fn spec_substitute_prefix(textures: Seq<(String, TextureValue)>, n: int) -> Result<
    Seq<(String, TextureValue)>,
    ResolveErr,
>
    decreases n,
{
    if n <= 0 {
        Ok(Seq::empty())
    } else {
        match spec_substitute_prefix(textures, n - 1) {
            Err(e) => Err(e),
            Ok(prev) => match spec_resolve_ref(textures, textures[n - 1].1, textures.len() as nat) {
                Some(lit) => Ok(prev.push((textures[n - 1].0, TextureValue::Path(lit)))),
                None => Err(ResolveErr::UnresolvedRef(textures[n - 1].0@)),
            },
        }
    }
}

/// The fully resolved form of a model: its parent chain merged and every
/// texture reference substituted.
pub open spec fn spec_resolve_model<P: ResourceProvider>(p: P, m: MergedModel, fuel: nat) -> Result<
    MergedModel,
    ResolveErr,
> {
    match spec_chain_merge(p, m, fuel) {
        Err(e) => Err(e),
        Ok(merged) => match spec_substitute_prefix(
            merged.textures,
            merged.textures.len() as int,
        ) {
            Err(e) => Err(e),
            Ok(texs) => Ok(
                MergedModel { parent: None, textures: texs, elements: merged.elements },
            ),
        },
    }
}

/// The executable resolver result agrees with the specification outcome,
/// error kind for error kind.
pub open spec fn resolve_result_matches(
    r: Result<Model, MeshBakeError>,
    o: Result<MergedModel, ResolveErr>,
) -> bool {
    match (r, o) {
        (Ok(m), Ok(res)) => {
            &&& m.parent is None
            &&& m.textures@ == res.textures
            &&& match (m.elements, res.elements) {
                (Some(v), Some(s)) => v@ == s,
                (None, None) => true,
                _ => false,
            }
        },
        (Err(MeshBakeError::UnresolvedResourcePath(s)), Err(ResolveErr::MissingResource(pv))) => s@
            == pv,
        (Err(MeshBakeError::MalformedModel(s)), Err(ResolveErr::MalformedResource(pv))) => s@ == pv,
        (Err(MeshBakeError::ParentChainTooDeep(s)), Err(ResolveErr::ChainTooDeep(n))) => s@ == n,
        (
            Err(MeshBakeError::UnresolvedTextureReference(s)),
            Err(ResolveErr::UnresolvedRef(k)),
        ) => s@ == k,
        _ => false,
    }
}

/// Clone a string, keeping its value.
pub fn clone_string(s: &String) -> (r: String)
    ensures
        r == *s,
{
    s.clone()
}

/// Clone a texture value, keeping its value.
fn clone_texture_value(v: &TextureValue) -> (r: TextureValue)
    ensures
        r == *v,
{
    match v {
        TextureValue::Path(s) => TextureValue::Path(s.clone()),
        TextureValue::Reference(s) => TextureValue::Reference(s.clone()),
    }
}

/// Look up a texture slot by name.
pub fn find_texture(textures: &Vec<(String, TextureValue)>, key: &String) -> (r: Option<
    TextureValue,
>)
    ensures
        r == spec_tex_find(textures@, key@),
{
    let mut i: usize = 0;
    while i < textures.len()
        invariant
            i <= textures@.len(),
            spec_tex_find(textures@, key@) == tex_find_from(textures@, key@, i as int),
        decreases textures@.len() - i,
    {
        if textures[i].0 == *key {
            return Some(clone_texture_value(&textures[i].1));
        }
        i = i + 1;
    }
    None
}

/// Merge a parent model under a child model.
fn merge_under(child: Model, parent: Model) -> (r: Model)
    ensures
        merged_of(r) == spec_merge_under(merged_of(child), merged_of(parent)),
{
    let ghost child_textures = child.textures@;
    let mut textures = child.textures;
    let mut i: usize = 0;
    while i < parent.textures.len()
        invariant
            i <= parent.textures@.len(),
            textures@ == spec_tex_union(child_textures, parent.textures@, i as int),
        decreases parent.textures@.len() - i,
    {
        if find_texture(&textures, &parent.textures[i].0).is_none() {
            let name = clone_string(&parent.textures[i].0);
            let value = clone_texture_value(&parent.textures[i].1);
            textures.push((name, value));
            proof {
                assert((name, value) == parent.textures@[i as int]);
            }
        }
        i = i + 1;
    }
    Model {
        parent: parent.parent,
        textures,
        elements: if child.elements.is_some() {
            child.elements
        } else {
            parent.elements
        },
    }
}

/// Follow a texture value's reference chain; `None` when it ends nowhere.
pub fn resolve_ref(textures: &Vec<(String, TextureValue)>, v: &TextureValue) -> (r: Option<String>)
    ensures
        r == spec_resolve_ref(textures@, *v, textures@.len() as nat),
{
    let mut cur = clone_texture_value(v);
    let mut fuel: usize = textures.len();
    loop
        invariant
            fuel <= textures@.len(),
            spec_resolve_ref(textures@, cur, fuel as nat) == spec_resolve_ref(
                textures@,
                *v,
                textures@.len() as nat,
            ),
        decreases fuel,
    {
        match cur {
            TextureValue::Path(s) => {
                return Some(s);
            },
            TextureValue::Reference(k) => {
                if fuel == 0 {
                    return None;
                }
                match find_texture(textures, &k) {
                    None => {
                        return None;
                    },
                    Some(next) => {
                        cur = next;
                        fuel = fuel - 1;
                    },
                }
            },
        }
    }
}

/// Substitute every texture reference in the table by the concrete path its
/// chain ends at; fails when a chain ends nowhere.
fn substitute_textures(textures: Vec<(String, TextureValue)>) -> (r: Result<
    Vec<(String, TextureValue)>,
    MeshBakeError,
>)
    ensures
        match (r, spec_substitute_prefix(textures@, textures@.len() as int)) {
            (Ok(v), Ok(s)) => v@ == s,
            (
                Err(MeshBakeError::UnresolvedTextureReference(s)),
                Err(ResolveErr::UnresolvedRef(k)),
            ) => s@ == k,
            _ => false,
        },
{
    let mut out: Vec<(String, TextureValue)> = Vec::new();
    let mut i: usize = 0;
    while i < textures.len()
        invariant
            i <= textures@.len(),
            spec_substitute_prefix(textures@, i as int) == Ok::<_, ResolveErr>(out@),
        decreases textures@.len() - i,
    {
        match resolve_ref(&textures, &textures[i].1) {
            Some(lit) => {
                let name = clone_string(&textures[i].0);
                out.push((name, TextureValue::Path(lit)));
            },
            None => {
                let name = clone_string(&textures[i].0);
                proof {
                    lemma_substitute_error_persists(
                        textures@,
                        i as int + 1,
                        textures@.len() as int,
                    );
                }
                return Err(MeshBakeError::UnresolvedTextureReference(name));
            },
        }
        i = i + 1;
    }
    Ok(out)
}

/// Once substitution fails on a prefix, every longer prefix fails the same
/// way.
proof fn lemma_substitute_error_persists(textures: Seq<(String, TextureValue)>, a: int, b: int)
    requires
        0 <= a <= b,
        spec_substitute_prefix(textures, a) is Err,
    ensures
        spec_substitute_prefix(textures, b) == spec_substitute_prefix(textures, a),
    decreases b - a,
{
    if a < b {
        lemma_substitute_error_persists(textures, a, b - 1);
    }
}

/// The fold of one parent chain agrees with the specification outcome.
pub open spec fn chain_result_matches(
    r: Result<Model, MeshBakeError>,
    o: Result<MergedModel, ResolveErr>,
) -> bool {
    match (r, o) {
        (Ok(m), Ok(res)) => merged_of(m) == res,
        (Err(MeshBakeError::UnresolvedResourcePath(s)), Err(ResolveErr::MissingResource(pv))) => s@
            == pv,
        (Err(MeshBakeError::MalformedModel(s)), Err(ResolveErr::MalformedResource(pv))) => s@ == pv,
        (Err(MeshBakeError::ParentChainTooDeep(s)), Err(ResolveErr::ChainTooDeep(n))) => s@ == n,
        _ => false,
    }
}

/// Fetch and fold the parent chain of a model, newest to oldest.
fn chain_fold<P: ResourceProvider>(acc: Model, resource_provider: &P, fuel: usize) -> (r: Result<
    Model,
    MeshBakeError,
>)
    ensures
        chain_result_matches(r, spec_chain_merge(*resource_provider, merged_of(acc), fuel as nat)),
    decreases fuel,
{
    let name = match &acc.parent {
        Some(n) => clone_string(n),
        None => {
            return Ok(acc);
        },
    };
    if fuel == 0 {
        return Err(MeshBakeError::ParentChainTooDeep(name));
    }
    let path = model_resource_path(&name);
    match resource_provider.get_model(&path) {
        Ok(parent) => chain_fold(merge_under(acc, parent), resource_provider, fuel - 1),
        Err(ResourceError::NotFound) => Err(MeshBakeError::UnresolvedResourcePath(path)),
        Err(ResourceError::Malformed) => Err(MeshBakeError::MalformedModel(path)),
    }
}

/// Resolve a model: fetch and merge its parent chain (child declarations
/// override the parent's), then substitute every texture reference by the
/// concrete path it names. It is an error for any reference to remain
/// unresolvable after the merge.
pub fn resolve_model<P: ResourceProvider>(model: Model, resource_provider: &P) -> (r: Result<
    Model,
    MeshBakeError,
>)
    ensures
        resolve_result_matches(
            r,
            spec_resolve_model(*resource_provider, merged_of(model), MAX_PARENT_DEPTH as nat),
        ),
{
    let merged = match chain_fold(model, resource_provider, MAX_PARENT_DEPTH) {
        Ok(m) => m,
        Err(e) => {
            return Err(e);
        },
    };

    let textures = match substitute_textures(merged.textures) {
        Ok(t) => t,
        Err(e) => {
            return Err(e);
        },
    };

    Ok(Model { parent: None, textures, elements: merged.elements })
}

/// Clone an element face, keeping its content.
fn clone_face(f: &ElementFace) -> (r: ElementFace)
    ensures
        r == *f,
{
    ElementFace { texture: clone_texture_value(&f.texture), uv: f.uv, tint_index: f.tint_index }
}

/// Clone an optional element face, keeping its content.
fn clone_opt_face(f: &Option<ElementFace>) -> (r: Option<ElementFace>)
    ensures
        r == *f,
{
    match f {
        Some(face) => Some(clone_face(face)),
        None => None,
    }
}

/// Clone an element, keeping its content.
fn clone_element(e: &Element) -> (r: Element)
    ensures
        r == *e,
{
    Element {
        from: e.from,
        to: e.to,
        north: clone_opt_face(&e.north),
        east: clone_opt_face(&e.east),
        south: clone_opt_face(&e.south),
        west: clone_opt_face(&e.west),
        up: clone_opt_face(&e.up),
        down: clone_opt_face(&e.down),
    }
}

/// Clone a model, keeping its content (parent, texture table, elements).
pub fn clone_model(m: &Model) -> (r: Model)
    ensures
        merged_of(r) == merged_of(*m),
{
    let parent = match &m.parent {
        Some(p) => Some(clone_string(p)),
        None => None,
    };
    let mut textures: Vec<(String, TextureValue)> = Vec::new();
    let mut i: usize = 0;
    while i < m.textures.len()
        invariant
            i <= m.textures@.len(),
            textures@ == m.textures@.take(i as int),
        decreases m.textures@.len() - i,
    {
        let name = clone_string(&m.textures[i].0);
        let value = clone_texture_value(&m.textures[i].1);
        textures.push((name, value));
        proof {
            assert(textures@ =~= m.textures@.take(i as int + 1));
        }
        i = i + 1;
    }
    proof {
        assert(textures@ =~= m.textures@);
    }
    let elements = match &m.elements {
        None => None,
        Some(es) => {
            let mut out: Vec<Element> = Vec::new();
            let mut i: usize = 0;
            while i < es.len()
                invariant
                    i <= es@.len(),
                    out@ == es@.take(i as int),
                decreases es@.len() - i,
            {
                out.push(clone_element(&es[i]));
                proof {
                    assert(out@ =~= es@.take(i as int + 1));
                }
                i = i + 1;
            }
            proof {
                assert(out@ =~= es@);
            }
            Some(out)
        },
    };
    Model { parent, textures, elements }
}

/// The stored model served for `path`, scanning from index `i`.
pub open spec fn model_find_from(
    models: Seq<(String, Model)>,
    path: Seq<char>,
    i: int,
) -> Option<Model>
    decreases models.len() - i,
{
    if i < 0 || i >= models.len() {
        None
    } else if models[i].0@ == path {
        Some(models[i].1)
    } else {
        model_find_from(models, path, i + 1)
    }
}

/// A path occurs in the list, scanning from index `i`.
pub open spec fn path_listed_from(paths: Seq<String>, path: Seq<char>, i: int) -> bool
    decreases paths.len() - i,
{
    if i < 0 || i >= paths.len() {
        false
    } else if paths[i]@ == path {
        true
    } else {
        path_listed_from(paths, path, i + 1)
    }
}

/// The texture served for `path`, scanning from index `i`.
pub open spec fn texture_find_from(
    textures: Seq<(String, TextureImage)>,
    path: Seq<char>,
    i: int,
) -> Option<TextureImage>
    decreases textures.len() - i,
{
    if i < 0 || i >= textures.len() {
        None
    } else if textures[i].0@ == path {
        Some(textures[i].1)
    } else {
        texture_find_from(textures, path, i + 1)
    }
}

/// A resource provider over in-memory tables: parsed models and texture
/// descriptions by path, plus the paths whose content failed to parse (so
/// absent and malformed resources stay distinguishable). An embedder parses
/// its assets into these tables and hands them to the core.
pub struct StoredResources {
    pub models: Vec<(String, Model)>,
    pub malformed: Vec<String>,
    pub textures: Vec<(String, TextureImage)>,
}

impl ResourceProvider for StoredResources {
    open spec fn spec_model(&self, path: Seq<char>) -> Result<MergedModel, ResourceError> {
        match model_find_from(self.models@, path, 0) {
            Some(m) => Ok(merged_of(m)),
            None => if path_listed_from(self.malformed@, path, 0) {
                Err(ResourceError::Malformed)
            } else {
                Err(ResourceError::NotFound)
            },
        }
    }

    open spec fn spec_texture(&self, path: Seq<char>) -> Option<TextureImage> {
        texture_find_from(self.textures@, path, 0)
    }

    fn get_model(&self, path: &String) -> (r: Result<Model, ResourceError>) {
        let mut i: usize = 0;
        while i < self.models.len()
            invariant
                i <= self.models@.len(),
                model_find_from(self.models@, path@, 0) == model_find_from(
                    self.models@,
                    path@,
                    i as int,
                ),
            decreases self.models@.len() - i,
        {
            if self.models[i].0 == *path {
                return Ok(clone_model(&self.models[i].1));
            }
            i = i + 1;
        }
        let mut j: usize = 0;
        while j < self.malformed.len()
            invariant
                j <= self.malformed@.len(),
                model_find_from(self.models@, path@, 0) is None,
                path_listed_from(self.malformed@, path@, 0) == path_listed_from(
                    self.malformed@,
                    path@,
                    j as int,
                ),
            decreases self.malformed@.len() - j,
        {
            if self.malformed[j] == *path {
                return Err(ResourceError::Malformed);
            }
            j = j + 1;
        }
        Err(ResourceError::NotFound)
    }

    fn get_texture(&self, path: &String) -> (r: Option<TextureImage>) {
        let mut i: usize = 0;
        while i < self.textures.len()
            invariant
                i <= self.textures@.len(),
                texture_find_from(self.textures@, path@, 0) == texture_find_from(
                    self.textures@,
                    path@,
                    i as int,
                ),
            decreases self.textures@.len() - i,
        {
            if self.textures[i].0 == *path {
                return Some(self.textures[i].1);
            }
            i = i + 1;
        }
        None
    }
}

/// Every texture slot of a successfully substituted table holds a concrete
/// path: no reference survives resolution.
pub proof fn lemma_substituted_all_literals(textures: Seq<(String, TextureValue)>, n: int)
    ensures
        match spec_substitute_prefix(textures, n) {
            Ok(s) => forall|j: int| 0 <= j < s.len() ==> (#[trigger] s[j]).1 is Path,
            Err(_) => true,
        },
    decreases n,
{
    if n > 0 {
        lemma_substituted_all_literals(textures, n - 1);
    }
}

/// A resolved model holds no texture reference: resolution either
/// substitutes every slot or fails with an unresolved-reference error.
pub proof fn lemma_resolved_model_fully_substituted<P: ResourceProvider>(
    p: P,
    m: MergedModel,
    fuel: nat,
)
    ensures
        match spec_resolve_model(p, m, fuel) {
            Ok(res) => forall|j: int|
                0 <= j < res.textures.len() ==> (#[trigger] res.textures[j]).1 is Path,
            Err(_) => true,
        },
{
    match spec_chain_merge(p, m, fuel) {
        Ok(merged) => {
            lemma_substituted_all_literals(merged.textures, merged.textures.len() as int);
        },
        Err(_) => {},
    }
}

} // verus!
