//! The texture atlas: packs small textures into one large texture, assigning
//! each a stable UV rectangle, and tracks animated-texture frame offsets.
//! Packing is shelf-based: textures fill a row left to right and a new row
//! opens below when the current one is full.

use vstd::prelude::*;

verus! {

/// A UV rectangle in atlas pixel coordinates: top-left and bottom-right.
pub type UV = ((u16, u16), (u16, u16));

/// The width and height of the atlas texture in pixels.
pub const ATLAS_SIZE: u32 = 4096;

/// A texture as the resource provider describes it: the core packs by
/// dimensions alone and leaves the encoded bytes with the embedder, which
/// uploads them to the GPU atlas.
#[derive(Debug, Clone, Copy, PartialEq, Eq, Structural)]
pub struct TextureImage {
    pub width: u32,
    pub height: u32,
}

/// The atlas: the UV rectangle of every packed texture, animated-texture
/// frame offsets, and the shelf-packing cursor.
pub struct Atlas {
    /// Texture path to assigned UV rectangle; a path occurs at most once.
    pub entries: Vec<(String, UV)>,
    /// Texture path to animation frame offset; textures without an entry
    /// are static and have offset 0. A path occurs at most once.
    pub animated_offsets: Vec<(String, u32)>,
    /// The x pixel where the next texture in the current row would start.
    pub next_x: u32,
    /// The y pixel where the current row starts.
    pub next_y: u32,
    /// The height of the tallest texture in the current row.
    pub row_height: u32,
}

/// The mathematical state of an atlas.
pub ghost struct AtlasModel {
    pub entries: Seq<(String, UV)>,
    pub animated_offsets: Seq<(String, u32)>,
    pub next_x: int,
    pub next_y: int,
    pub row_height: int,
}

impl View for Atlas {
    type V = AtlasModel;

    open spec fn view(&self) -> AtlasModel {
        AtlasModel {
            entries: self.entries@,
            animated_offsets: self.animated_offsets@,
            next_x: self.next_x as int,
            next_y: self.next_y as int,
            row_height: self.row_height as int,
        }
    }
}

/// The UV rectangle recorded for `path`, scanning entries from index `i`.
pub open spec fn uv_find_from(entries: Seq<(String, UV)>, path: Seq<char>, i: int) -> Option<UV>
    decreases entries.len() - i,
{
    if i < 0 || i >= entries.len() {
        None
    } else if entries[i].0@ == path {
        Some(entries[i].1)
    } else {
        uv_find_from(entries, path, i + 1)
    }
}

/// The UV rectangle recorded for `path`, if any.
pub open spec fn spec_get_uv(entries: Seq<(String, UV)>, path: Seq<char>) -> Option<UV> {
    uv_find_from(entries, path, 0)
}

/// The frame offset recorded for `path`, scanning from index `i`.
pub open spec fn offset_find_from(
    offsets: Seq<(String, u32)>,
    path: Seq<char>,
    i: int,
) -> Option<u32>
    decreases offsets.len() - i,
{
    if i < 0 || i >= offsets.len() {
        None
    } else if offsets[i].0@ == path {
        Some(offsets[i].1)
    } else {
        offset_find_from(offsets, path, i + 1)
    }
}

/// The animation frame offset of `path`: 0 unless registered as animated.
pub open spec fn spec_animated_offset(offsets: Seq<(String, u32)>, path: Seq<char>) -> u32 {
    match offset_find_from(offsets, path, 0) {
        Some(off) => off,
        None => 0,
    }
}

/// The packing cursor is inside the atlas and every recorded rectangle lies
/// within the atlas bounds.
pub open spec fn atlas_wf(m: AtlasModel) -> bool {
    &&& 0 <= m.next_x <= ATLAS_SIZE
    &&& 0 <= m.next_y
    &&& 0 <= m.row_height
    &&& m.next_y + m.row_height <= ATLAS_SIZE
    &&& forall|j: int|
        0 <= j < m.entries.len() ==> {
            let uv = (#[trigger] m.entries[j]).1;
            &&& uv.0.0 <= uv.1.0 <= ATLAS_SIZE
            &&& uv.0.1 <= uv.1.1 <= ATLAS_SIZE
        }
}

/// Where the shelf packer places a `w x h` texture: `(uv, next_x, next_y,
/// row_height)` after placement, or `None` when it cannot fit.
pub open spec fn spec_place(m: AtlasModel, w: u32, h: u32) -> Option<(UV, int, int, int)> {
    if w == 0 || h == 0 || w > ATLAS_SIZE || h > ATLAS_SIZE {
        None
    } else {
        let x = if m.next_x + w <= ATLAS_SIZE {
            m.next_x
        } else {
            0
        };
        let y = if m.next_x + w <= ATLAS_SIZE {
            m.next_y
        } else {
            m.next_y + m.row_height
        };
        let rh = if m.next_x + w <= ATLAS_SIZE {
            if h > m.row_height {
                h as int
            } else {
                m.row_height
            }
        } else {
            h as int
        };
        if y + h > ATLAS_SIZE {
            None
        } else {
            Some(
                (
                    ((x as u16, y as u16), ((x + w) as u16, (y + h) as u16)),
                    x + w,
                    y,
                    rh,
                ),
            )
        }
    }
}

/// The atlas after packing one texture: unchanged when the path is already
/// present or the texture does not fit, extended by one entry otherwise.
pub open spec fn spec_insert(m: AtlasModel, path: String, w: u32, h: u32) -> AtlasModel {
    if spec_get_uv(m.entries, path@) is Some {
        m
    } else {
        match spec_place(m, w, h) {
            None => m,
            Some((uv, nx, ny, rh)) => AtlasModel {
                entries: m.entries.push((path, uv)),
                next_x: nx,
                next_y: ny,
                row_height: rh,
                ..m
            },
        }
    }
}

/// The atlas after packing the first `n` textures of a batch, in order.
pub open spec fn spec_allocate(m: AtlasModel, batch: Seq<(String, TextureImage)>, n: int) -> AtlasModel
    decreases n,
{
    if n <= 0 {
        m
    } else {
        let prev = spec_allocate(m, batch, n - 1);
        spec_insert(prev, batch[n - 1].0, batch[n - 1].1.width, batch[n - 1].1.height)
    }
}

impl Atlas {
    /// A fresh, empty atlas.
    pub fn new() -> (a: Atlas)
        ensures
            a@.entries.len() == 0,
            a@.animated_offsets.len() == 0,
            a@.next_x == 0 && a@.next_y == 0 && a@.row_height == 0,
            atlas_wf(a@),
    {
        Atlas {
            entries: Vec::new(),
            animated_offsets: Vec::new(),
            next_x: 0,
            next_y: 0,
            row_height: 0,
        }
    }

    /// The UV rectangle assigned to a texture path, or `None` when the
    /// texture has not been packed.
    pub fn get_uv(&self, path: &String) -> (r: Option<UV>)
        ensures
            r == spec_get_uv(self@.entries, path@),
    {
        let mut i: usize = 0;
        while i < self.entries.len()
            invariant
                i <= self.entries@.len(),
                spec_get_uv(self@.entries, path@) == uv_find_from(self@.entries, path@, i as int),
            decreases self.entries@.len() - i,
        {
            if self.entries[i].0 == *path {
                return Some(self.entries[i].1);
            }
            i = i + 1;
        }
        None
    }

    /// The animation frame offset of a texture path: 0 for static textures.
    pub fn get_animated_offset(&self, path: &String) -> (r: u32)
        ensures
            r == spec_animated_offset(self@.animated_offsets, path@),
    {
        let mut i: usize = 0;
        while i < self.animated_offsets.len()
            invariant
                i <= self.animated_offsets@.len(),
                offset_find_from(self@.animated_offsets, path@, 0) == offset_find_from(
                    self@.animated_offsets,
                    path@,
                    i as int,
                ),
            decreases self.animated_offsets@.len() - i,
        {
            if self.animated_offsets[i].0 == *path {
                return self.animated_offsets[i].1;
            }
            i = i + 1;
        }
        0
    }

    /// Register the animation frame offset of a texture; a later
    /// registration of the same path is ignored.
    pub fn register_animated_texture(&mut self, path: String, offset: u32)
        requires
            atlas_wf(old(self)@),
        ensures
            atlas_wf(final(self)@),
            final(self)@.entries == old(self)@.entries,
            final(self)@.next_x == old(self)@.next_x,
            final(self)@.next_y == old(self)@.next_y,
            final(self)@.row_height == old(self)@.row_height,
            final(self)@.animated_offsets == if offset_find_from(
                old(self)@.animated_offsets,
                path@,
                0,
            ) is Some {
                old(self)@.animated_offsets
            } else {
                old(self)@.animated_offsets.push((path, offset))
            },
    {
        let mut i: usize = 0;
        while i < self.animated_offsets.len()
            invariant
                i <= self.animated_offsets@.len(),
                *self == *old(self),
                atlas_wf(self@),
                offset_find_from(self@.animated_offsets, path@, 0) == offset_find_from(
                    self@.animated_offsets,
                    path@,
                    i as int,
                ),
            decreases self.animated_offsets@.len() - i,
        {
            if self.animated_offsets[i].0 == path {
                return ;
            }
            i = i + 1;
        }
        self.animated_offsets.push((path, offset));
        proof {
            assert(self@.entries == old(self)@.entries);
            assert(self@.next_x == old(self)@.next_x);
            assert(atlas_wf(self@));
        }
    }

    /// Pack one texture: a no-op when the path is already present or the
    /// texture cannot fit, otherwise the texture is placed at the packing
    /// cursor and recorded.
    fn insert_texture(&mut self, path: String, width: u32, height: u32)
        requires
            atlas_wf(old(self)@),
        ensures
            atlas_wf(final(self)@),
            final(self)@ == spec_insert(old(self)@, path, width, height),
    {
        if self.get_uv(&path).is_some() {
            return ;
        }
        if width == 0 || height == 0 || width > ATLAS_SIZE || height > ATLAS_SIZE {
            return ;
        }
        let (x, y, rh) = if self.next_x + width <= ATLAS_SIZE {
            (
                self.next_x,
                self.next_y,
                if height > self.row_height {
                    height
                } else {
                    self.row_height
                },
            )
        } else {
            (0, self.next_y + self.row_height, height)
        };
        if y + height > ATLAS_SIZE {
            return ;
        }
        let uv = (((x as u16, y as u16), ((x + width) as u16, (y + height) as u16)));
        self.entries.push((path, uv));
        self.next_x = x + width;
        self.next_y = y;
        self.row_height = rh;
    }

    /// Pack a batch of raw textures. Already-packed paths are skipped, so
    /// the operation is idempotent per texture path; textures that cannot
    /// fit are skipped too and stay unpacked.
    pub fn allocate(&mut self, textures: &Vec<(String, TextureImage)>)
        requires
            atlas_wf(old(self)@),
        ensures
            atlas_wf(final(self)@),
            final(self)@ == spec_allocate(old(self)@, textures@, textures@.len() as int),
    {
        let mut i: usize = 0;
        while i < textures.len()
            invariant
                i <= textures@.len(),
                atlas_wf(self@),
                self@ == spec_allocate(old(self)@, textures@, i as int),
            decreases textures@.len() - i,
        {
            let path = clone_string(&textures[i].0);
            proof {
                assert(path == textures@[i as int].0);
            }
            self.insert_texture(path, textures[i].1.width, textures[i].1.height);
            i = i + 1;
        }
    }
}

/// Clone a string, keeping its value.
fn clone_string(s: &String) -> (r: String)
    ensures
        r == *s,
{
    s.clone()
}

/// Packing a texture whose path is already in the atlas changes nothing:
/// allocation is idempotent per texture path.
pub proof fn lemma_insert_idempotent(m: AtlasModel, path: String, w: u32, h: u32)
    requires
        spec_get_uv(m.entries, path@) is Some,
    ensures
        spec_insert(m, path, w, h) == m,
{
}

/// Packing a batch whose every path the atlas already holds changes
/// nothing: repeating an allocation whose textures were all placed is a
/// no-op.
pub proof fn lemma_allocate_idempotent(m: AtlasModel, batch: Seq<(String, TextureImage)>, n: int)
    requires
        n <= batch.len(),
        forall|j: int|
            0 <= j < batch.len() ==> spec_get_uv(m.entries, (#[trigger] batch[j]).0@) is Some,
    ensures
        spec_allocate(m, batch, n) == m,
    decreases n,
{
    if n > 0 {
        lemma_allocate_idempotent(m, batch, n - 1);
        if 0 <= n - 1 < batch.len() {
            lemma_insert_idempotent(m, batch[n - 1].0, batch[n - 1].1.width, batch[n - 1].1.height);
        }
    }
}

} // verus!
