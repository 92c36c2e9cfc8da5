//! Renderer-side state the windowing and GPU glue hands to the core: window
//! sizes, surface reconfiguration, texture identities, and the queue that
//! batches pending chunk-buffer writes between frames.

use vstd::prelude::*;

verus! {

/// A window's size in physical pixels.
#[derive(Copy, Clone, PartialEq, Eq, Structural, Debug)]
pub struct WindowSize {
    pub width: u32,
    pub height: u32,
}

/// Anything that can report the size of the window it draws into.
pub trait HasWindowSize {
    fn get_window_size(&self) -> WindowSize;
}

/// The textures the embedding application identifies by role.
#[derive(Copy, Clone, Hash, Eq, PartialEq, Structural, Debug)]
pub enum MCTextureId {
    BlockAtlas,
    Lightmap,
}

/// The dimensions a render surface is configured with.
#[derive(Copy, Clone, PartialEq, Eq, Structural, Debug)]
pub struct SurfaceConfig {
    pub width: u32,
    pub height: u32,
}

/// The surface configuration for a resized window: the new size when it is
/// drawable, `None` when either dimension is zero (a minimized window keeps
/// its old surface).
pub fn update_surface_size(surface_config: SurfaceConfig, new_size: WindowSize) -> (r: Option<
    SurfaceConfig,
>)
    ensures
        r == if new_size.width == 0 || new_size.height == 0 {
            None::<SurfaceConfig>
        } else {
            Some(SurfaceConfig { width: new_size.width, height: new_size.height })
        },
{
    if new_size.width == 0 || new_size.height == 0 {
        return None;
    }
    Some(SurfaceConfig { width: new_size.width, height: new_size.height })
}

/// The matrices the embedding application streams to the renderer each
/// frame, entries stored as IEEE bit patterns in row order.
#[derive(Clone, Copy, PartialEq, Debug)]
pub struct Matrices {
    pub projection: [u32; 16],
    pub view: [u32; 16],
    pub terrain_transformation: [u32; 16],
}

impl Matrices {
    pub fn new() -> (m: Matrices)
        ensures
            forall|i: int| 0 <= i < 16 ==> m.projection@[i] == 0,
            forall|i: int| 0 <= i < 16 ==> m.view@[i] == 0,
            forall|i: int| 0 <= i < 16 ==> m.terrain_transformation@[i] == 0,
    {
        Matrices { projection: [0; 16], view: [0; 16], terrain_transformation: [0; 16] }
    }

    /// Store one matrix under its slot id: 0 is the projection, 2 the view,
    /// 3 the terrain transformation; any other id is ignored.
    pub fn set_matrix(&mut self, id: i32, value: [u32; 16])
        ensures
            final(self).projection == if id == 0 {
                value
            } else {
                old(self).projection
            },
            final(self).view == if id == 2 {
                value
            } else {
                old(self).view
            },
            final(self).terrain_transformation == if id == 3 {
                value
            } else {
                old(self).terrain_transformation
            },
    {
        if id == 0 {
            self.projection = value;
        } else if id == 2 {
            self.view = value;
        } else if id == 3 {
            self.terrain_transformation = value;
        }
    }
}

/// Pending chunk-buffer writes: workers queue them here and the thread that
/// owns the GPU queue drains and flushes them in batches. Each entry names
/// the destination buffer by handle and carries the bytes to write.
pub struct ChunkUpdateQueue {
    pub pending: Vec<(u64, Vec<u8>)>,
}

impl ChunkUpdateQueue {
    pub fn new() -> (q: ChunkUpdateQueue)
        ensures
            q.pending@.len() == 0,
    {
        ChunkUpdateQueue { pending: Vec::new() }
    }

    /// Queue one buffer write; it stays pending until the next drain.
    pub fn queue_write(&mut self, buffer: u64, data: Vec<u8>)
        ensures
            final(self).pending@ == old(self).pending@.push((buffer, data)),
    {
        self.pending.push((buffer, data));
    }

    /// Take every pending write, in the order queued, leaving the queue
    /// empty: the drained batch is flushed to the GPU in one submission.
    pub fn drain(&mut self) -> (r: Vec<(u64, Vec<u8>)>)
        ensures
            r@ == old(self).pending@,
            final(self).pending@.len() == 0,
    {
        let mut out: Vec<(u64, Vec<u8>)> = Vec::new();
        core::mem::swap(&mut out, &mut self.pending);
        out
    }
}

} // verus!
