//! The free-range allocator behind the single large chunk vertex buffer.
//!
//! Every baked chunk layer occupies one byte range of that buffer; ranges are
//! granted and released through `range_alloc`'s `RangeAllocator`, which this
//! module exposes through trusted wrappers whose contracts speak of the set
//! of free byte offsets.

use vstd::prelude::*;
use vstd::set_lib::{set_int_range, lemma_int_range, lemma_len_subset, lemma_set_disjoint_lens};
use range_alloc::RangeAllocator;

use crate::chunk::{
    bake_layer, spec_bake_layer, BlockStateProvider, Chunk, ChunkPos, RenderLayer, MAX_CHUNK_POS,
};
use crate::mesh::{BlockManager, Vertex, VERTEX_STRIDE};

verus! {

#[verifier::external_type_specification]
#[verifier::external_body]
#[verifier::reject_recursive_types(T)]
pub struct ExRangeAllocator<T>(RangeAllocator<T>);

/// The set of byte offsets that the allocator currently holds as free.
pub uninterp spec fn free_of(a: RangeAllocator<usize>) -> Set<int>;

/// The end of the range the allocator was created over: offsets are drawn
/// from `[0, span_of(a))`.
pub uninterp spec fn span_of(a: RangeAllocator<usize>) -> int;

/// A contiguous run of `length` free offsets starts at `s` in `fs`.
pub open spec fn free_run(fs: Set<int>, s: int, length: int) -> bool {
    forall|i: int| s <= i < s + length ==> fs.contains(i)
}

/// Relies on range_alloc::RangeAllocator::new: the whole range `0..size`
/// starts free.
#[verifier::external_body]
pub fn range_allocator_new(size: usize) -> (a: RangeAllocator<usize>)
    ensures
        free_of(a) == set_int_range(0, size as int),
        span_of(a) == size,
{
    RangeAllocator::new(0..size)
}

/// Relies on range_alloc::RangeAllocator::initial_range: the end of the
/// range the allocator was created over (allocators here start at 0).
#[verifier::external_body]
pub fn allocator_span(a: &RangeAllocator<usize>) -> (r: usize)
    ensures
        r == span_of(*a),
{
    a.initial_range().end
}

/// Relies on range_alloc::RangeAllocator::allocate_range: hands out a
/// contiguous sub-range of the free pool (best fit), removing exactly that
/// range from the pool; it fails only when no free range can hold `length`
/// contiguous offsets, and reports the total free length that remained
/// (fragmented across non-contiguous ranges). The callee panics on
/// `length == 0`, and its zero check computes `length + length`, which a
/// debug build would overflow for a length above half the address space, so
/// both inputs are excluded.
#[verifier::external_body]
pub fn allocate_range(a: &mut RangeAllocator<usize>, length: usize) -> (r: Result<
    (usize, usize),
    usize,
>)
    requires
        0 < length <= usize::MAX / 2,
    ensures
        span_of(*final(a)) == span_of(*old(a)),
        match r {
            Ok(range) => {
                &&& range.0 + length == range.1
                &&& range.1 <= span_of(*old(a))
                &&& free_run(free_of(*old(a)), range.0 as int, length as int)
                &&& free_of(*final(a)) == free_of(*old(a)).difference(
                    set_int_range(range.0 as int, range.1 as int),
                )
            },
            Err(fragmented) => {
                &&& fragmented == free_of(*old(a)).len()
                &&& free_of(*final(a)) == free_of(*old(a))
                &&& !(exists|s: int|
                    0 <= s && s + length <= span_of(*old(a)) && #[trigger] free_run(
                        free_of(*old(a)),
                        s,
                        length as int,
                    ))
            },
        },
{
    match a.allocate_range(length) {
        Ok(range) => Ok((range.start, range.end)),
        Err(e) => Err(e.fragmented_free_length),
    }
}

/// Relies on range_alloc::RangeAllocator::free_range: returns the range to
/// the free pool, merging it with its neighbours. The callee panics when the
/// range is empty, reaches outside the allocator's span, or overlaps an
/// already-free range, so those inputs are excluded.
#[verifier::external_body]
pub fn free_range(a: &mut RangeAllocator<usize>, start: usize, end: usize)
    requires
        start < end,
        end <= span_of(*old(a)),
        forall|i: int| start <= i < end ==> !free_of(*old(a)).contains(i),
    ensures
        span_of(*final(a)) == span_of(*old(a)),
        free_of(*final(a)) == free_of(*old(a)).union(set_int_range(start as int, end as int)),
{
    a.free_range(start..end)
}

/// Relies on range_alloc::RangeAllocator::total_available: the summed length
/// of the stored free ranges, which is the number of free offsets.
#[verifier::external_body]
pub fn total_available(a: &RangeAllocator<usize>) -> (r: usize)
    ensures
        r == free_of(*a).len(),
{
    a.total_available()
}

/// The size in bytes of the single GPU buffer all baked chunk layers share.
pub const CHUNK_ALLOCATOR_SIZE: usize = 1000 * 1000 * 1000;

/// The allocator is consistent: its free set is finite and lies within its
/// span, and the span leaves the allocator's internal length arithmetic
/// room (no real buffer approaches half the address space).
pub open spec fn alloc_wf(a: RangeAllocator<usize>) -> bool {
    &&& free_of(a).finite()
    &&& 0 <= span_of(a) <= usize::MAX / 2
    &&& forall|i: int| #[trigger] free_of(a).contains(i) ==> 0 <= i < span_of(a)
}

/// A recorded layer range lies within the allocator's span and none of its
/// offsets is free: the buffer space it names belongs to it alone.
pub open spec fn layer_range_ok(entry: (String, (usize, usize)), a: RangeAllocator<usize>) -> bool {
    &&& entry.1.0 <= entry.1.1 <= span_of(a)
    &&& forall|i: int| entry.1.0 <= i < entry.1.1 ==> !free_of(a).contains(i)
}

/// Two byte ranges share no offset (an empty range shares none).
pub open spec fn ranges_disjoint(r1: (usize, usize), r2: (usize, usize)) -> bool {
    r1.0 == r1.1 || r2.0 == r2.1 || r1.1 <= r2.0 || r2.1 <= r1.0
}

/// Every range a chunk records is backed by allocated buffer space, and no
/// two of its layers share a byte.
pub open spec fn chunk_ranges_wf(c: Chunk, a: RangeAllocator<usize>) -> bool {
    &&& forall|j: int|
        0 <= j < c.baked_layers@.len() ==> layer_range_ok(#[trigger] c.baked_layers@[j], a)
    &&& forall|j: int, k: int|
        0 <= j < k < c.baked_layers@.len() ==> ranges_disjoint(
            (#[trigger] c.baked_layers@[j]).1,
            (#[trigger] c.baked_layers@[k]).1,
        )
}

/// The total byte size of the first `n` recorded layer ranges.
pub open spec fn ranges_total_prefix(layers: Seq<(String, (usize, usize))>, n: int) -> int
    decreases n,
{
    if n <= 0 {
        0
    } else {
        ranges_total_prefix(layers, n - 1) + (layers[n - 1].1.1 - layers[n - 1].1.0)
    }
}

/// The total byte size of a chunk's recorded layer ranges.
pub open spec fn ranges_total(layers: Seq<(String, (usize, usize))>) -> int {
    ranges_total_prefix(layers, layers.len() as int)
}

/// The byte size one layer's baked vertices occupy in the chunk buffer.
pub open spec fn spec_layer_size<P: BlockStateProvider, L: RenderLayer>(
    bm: BlockManager,
    layer: L,
    p: P,
    pos: ChunkPos,
) -> int {
    spec_bake_layer(bm, layer, p, pos).len() * VERTEX_STRIDE
}

/// The total byte size the first `n` layers' baked vertices occupy.
pub open spec fn layers_total_prefix<P: BlockStateProvider, L: RenderLayer>(
    bm: BlockManager,
    layers: Seq<L>,
    p: P,
    pos: ChunkPos,
    n: int,
) -> int
    decreases n,
{
    if n <= 0 {
        0
    } else {
        layers_total_prefix(bm, layers, p, pos, n - 1) + spec_layer_size(
            bm,
            layers[n - 1],
            p,
            pos,
        )
    }
}

/// The total byte size a bake of all layers occupies.
pub open spec fn layers_total<P: BlockStateProvider, L: RenderLayer>(
    bm: BlockManager,
    layers: Seq<L>,
    p: P,
    pos: ChunkPos,
) -> int {
    layers_total_prefix(bm, layers, p, pos, layers.len() as int)
}

/// Freeing a range none of whose offsets is free grows the free set by
/// exactly the range's length.
pub proof fn lemma_union_range_len(fs: Set<int>, s: int, e: int)
    requires
        fs.finite(),
        s <= e,
        forall|i: int| s <= i < e ==> !fs.contains(i),
    ensures
        fs.union(set_int_range(s, e)).finite(),
        fs.union(set_int_range(s, e)).len() == fs.len() + (e - s),
{
    lemma_int_range(s, e);
    assert(fs.disjoint(set_int_range(s, e)));
    lemma_set_disjoint_lens(fs, set_int_range(s, e));
    assert(fs + set_int_range(s, e) == fs.union(set_int_range(s, e)));
}

/// Granting a range all of whose offsets are free shrinks the free set by
/// exactly the range's length.
pub proof fn lemma_diff_range_len(fs: Set<int>, s: int, e: int)
    requires
        fs.finite(),
        s <= e,
        forall|i: int| s <= i < e ==> fs.contains(i),
    ensures
        fs.difference(set_int_range(s, e)).finite(),
        fs.difference(set_int_range(s, e)).len() == fs.len() - (e - s),
{
    lemma_int_range(s, e);
    let r = set_int_range(s, e);
    lemma_len_subset(fs.difference(r), fs);
    assert(fs.difference(r).disjoint(r));
    lemma_set_disjoint_lens(fs.difference(r), r);
    assert(fs.difference(r) + r =~= fs);
}

/// When each recorded range is sized exactly as its layer's bake, the
/// recorded total equals the baked total.
proof fn lemma_totals_align<P: BlockStateProvider, L: RenderLayer>(
    entries: Seq<(String, (usize, usize))>,
    bm: BlockManager,
    layers: Seq<L>,
    p: P,
    pos: ChunkPos,
    n: int,
)
    requires
        n <= entries.len(),
        n <= layers.len(),
        forall|j: int|
            0 <= j < n ==> (#[trigger] entries[j]).1.1 - entries[j].1.0 == spec_layer_size(
                bm,
                layers[j],
                p,
                pos,
            ),
    ensures
        ranges_total_prefix(entries, n) == layers_total_prefix(bm, layers, p, pos, n),
    decreases n,
{
    if n > 0 {
        lemma_totals_align(entries, bm, layers, p, pos, n - 1);
    }
}

/// Why a chunk bake reported the buffer exhausted with `f` free bytes:
/// after the earlier layers (those before `j`) were granted their ranges,
/// the free offsets left -- the set `fs`, of size exactly `f` -- held no
/// contiguous run for layer `j`'s positive byte size. The bake then released
/// everything it held, so `fs` sits inside the final free set, which exceeds
/// it by exactly the earlier layers' total.
pub open spec fn exhausted_at<P: BlockStateProvider, L: RenderLayer>(
    bm: BlockManager,
    layers: Seq<L>,
    p: P,
    pos: ChunkPos,
    span: int,
    free_final: Set<int>,
    f: int,
    j: int,
    fs: Set<int>,
) -> bool {
    let size = spec_layer_size(bm, layers[j], p, pos);
    &&& 0 <= j < layers.len()
    &&& fs.finite()
    &&& fs.subset_of(free_final)
    &&& fs.len() == f
    &&& free_final.len() == f + layers_total_prefix(bm, layers, p, pos, j)
    &&& size > 0
    &&& !(exists|s: int| 0 <= s && s + size <= span && #[trigger] free_run(fs, s, size))
}

/// Some layer's positive byte demand had no contiguous run in the free
/// space that remained for it (see [`exhausted_at`]).
pub open spec fn some_layer_exhausted<P: BlockStateProvider, L: RenderLayer>(
    bm: BlockManager,
    layers: Seq<L>,
    p: P,
    pos: ChunkPos,
    span: int,
    free_final: Set<int>,
    f: int,
) -> bool {
    exists|j: int, fs: Set<int>|
        #[trigger] exhausted_at(bm, layers, p, pos, span, free_final, f, j, fs)
}

/// One layer's baked vertices, ready to be written to the chunk buffer at
/// byte offset `start`.
pub struct LayerUpload {
    pub name: String,
    pub start: usize,
    pub vertices: Vec<Vertex>,
}

/// Baking failed because the chunk buffer could not hold a layer: the range
/// allocator was exhausted (or too fragmented). Carries the total free byte
/// count that remained.
#[derive(Debug, Clone, Copy, PartialEq, Eq, Structural)]
pub enum ChunkBakeError {
    BufferExhausted(usize),
}

/// The chunk vertex buffer's range allocator plus its bookkeeping.
pub struct ChunkAllocation {
    pub allocator: RangeAllocator<usize>,
}

/// All loaded chunks and the shared buffer allocation they bake into.
pub struct ChunkManager {
    pub loaded_chunks: Vec<Chunk>,
    pub chunk_offset: ChunkPos,
    pub chunk_allocation: ChunkAllocation,
}

impl ChunkManager {
    pub fn new() -> (m: ChunkManager)
        ensures
            m.loaded_chunks@.len() == 0,
            m.chunk_offset@[0] == 0 && m.chunk_offset@[1] == 0,
            alloc_wf(m.chunk_allocation.allocator),
            span_of(m.chunk_allocation.allocator) == CHUNK_ALLOCATOR_SIZE,
            free_of(m.chunk_allocation.allocator).len() == CHUNK_ALLOCATOR_SIZE,
    {
        let allocator = range_allocator_new(CHUNK_ALLOCATOR_SIZE);
        proof {
            lemma_int_range(0, CHUNK_ALLOCATOR_SIZE as int);
        }
        ChunkManager {
            loaded_chunks: Vec::new(),
            chunk_offset: [0, 0],
            chunk_allocation: ChunkAllocation { allocator },
        }
    }
}

/// Release every recorded layer range back to the allocator. The caller owns
/// the ranges (none of their offsets is free, and they are pairwise
/// disjoint), so the free set grows by exactly their total size.
fn release_layers(alloc: &mut RangeAllocator<usize>, entries: &Vec<(String, (usize, usize))>)
    requires
        alloc_wf(*old(alloc)),
        forall|j: int|
            0 <= j < entries@.len() ==> layer_range_ok(#[trigger] entries@[j], *old(alloc)),
        forall|j: int, k: int|
            0 <= j < k < entries@.len() ==> ranges_disjoint(
                (#[trigger] entries@[j]).1,
                (#[trigger] entries@[k]).1,
            ),
    ensures
        alloc_wf(*final(alloc)),
        span_of(*final(alloc)) == span_of(*old(alloc)),
        free_of(*final(alloc)).len() == free_of(*old(alloc)).len() + ranges_total(entries@),
        free_of(*old(alloc)).subset_of(free_of(*final(alloc))),
{
    let ghost len0 = free_of(*old(alloc)).len() as int;
    let mut idx: usize = 0;
    while idx < entries.len()
        invariant
            idx <= entries@.len(),
            alloc_wf(*alloc),
            span_of(*alloc) == span_of(*old(alloc)),
            free_of(*alloc).len() == len0 + ranges_total_prefix(entries@, idx as int),
            free_of(*old(alloc)).subset_of(free_of(*alloc)),
            forall|j: int|
                idx <= j < entries@.len() ==> layer_range_ok(#[trigger] entries@[j], *alloc),
            forall|j: int, k: int|
                0 <= j < k < entries@.len() ==> ranges_disjoint(
                    (#[trigger] entries@[j]).1,
                    (#[trigger] entries@[k]).1,
                ),
        decreases entries@.len() - idx,
    {
        let (s, e) = entries[idx].1;
        if s < e {
            proof {
                lemma_union_range_len(free_of(*alloc), s as int, e as int);
            }
            let ghost pre = *alloc;
            free_range(alloc, s, e);
            proof {
                assert forall|j: int|
                    idx + 1 <= j < entries@.len() implies layer_range_ok(
                    #[trigger] entries@[j],
                    *alloc,
                ) by {
                    assert(layer_range_ok(entries@[j], pre));
                    assert(ranges_disjoint(entries@[idx as int].1, entries@[j].1));
                }
            }
        }
        idx = idx + 1;
    }
}

impl Chunk {
    /// Bake every render layer of this chunk: release the ranges of the
    /// previous bake, generate each layer's vertex stream, grant it a byte
    /// range of the chunk buffer sized `vertex count * VERTEX_STRIDE`
    /// (an empty layer records the empty range and owns no buffer space),
    /// and record the mapping layer name -> range. Returns, per layer, the
    /// vertices to write at the granted offset. The bake fails only on a
    /// genuine shortage -- some layer's positive byte demand had no
    /// contiguous run in the free space left for it -- and then every range
    /// granted by this call is released again, the chunk keeps no layers,
    /// and the remaining free byte count is surfaced.
    pub fn bake_chunk<P: BlockStateProvider, L: RenderLayer>(
        &mut self,
        alloc: &mut RangeAllocator<usize>,
        layers: &Vec<L>,
        block_manager: &BlockManager,
        provider: &P,
    ) -> (r: Result<Vec<LayerUpload>, ChunkBakeError>)
        requires
            alloc_wf(*old(alloc)),
            chunk_ranges_wf(*old(self), *old(alloc)),
            block_manager.wf(),
            -MAX_CHUNK_POS <= old(self).pos@[0] <= MAX_CHUNK_POS,
            -MAX_CHUNK_POS <= old(self).pos@[1] <= MAX_CHUNK_POS,
        ensures
            alloc_wf(*final(alloc)),
            span_of(*final(alloc)) == span_of(*old(alloc)),
            final(self).pos == old(self).pos,
            chunk_ranges_wf(*final(self), *final(alloc)),
            match r {
                Ok(uploads) => {
                    &&& uploads@.len() == layers@.len()
                    &&& final(self).baked_layers@.len() == layers@.len()
                    &&& forall|j: int|
                        0 <= j < layers@.len() ==> {
                            let verts = spec_bake_layer(
                                *block_manager,
                                layers@[j],
                                *provider,
                                old(self).pos,
                            );
                            &&& (#[trigger] uploads@[j]).vertices@ == verts
                            &&& uploads@[j].name@ == layers@[j].spec_name()
                            &&& final(self).baked_layers@[j].0@ == layers@[j].spec_name()
                            &&& final(self).baked_layers@[j].1.0 == uploads@[j].start
                            &&& final(self).baked_layers@[j].1.1 - final(self).baked_layers@[j].1.0
                                == verts.len() * VERTEX_STRIDE
                        }
                    &&& ranges_total(final(self).baked_layers@) == layers_total(
                        *block_manager,
                        layers@,
                        *provider,
                        old(self).pos,
                    )
                    &&& free_of(*final(alloc)).len() == free_of(*old(alloc)).len() + ranges_total(
                        old(self).baked_layers@,
                    ) - ranges_total(final(self).baked_layers@)
                },
                Err(ChunkBakeError::BufferExhausted(f)) => {
                    &&& final(self).baked_layers@.len() == 0
                    &&& free_of(*final(alloc)).len() == free_of(*old(alloc)).len() + ranges_total(
                        old(self).baked_layers@,
                    )
                    &&& some_layer_exhausted(
                        *block_manager,
                        layers@,
                        *provider,
                        old(self).pos,
                        span_of(*old(alloc)),
                        free_of(*final(alloc)),
                        f as int,
                    )
                },
            },
    {
        // Release the previous bake's ranges before installing the new ones.
        release_layers(alloc, &self.baked_layers);
        self.baked_layers = Vec::new();

        let ghost base_len = free_of(*old(alloc)).len() + ranges_total(old(self).baked_layers@);
        let probe = Chunk { pos: self.pos, baked_layers: Vec::new() };

        let mut uploads: Vec<LayerUpload> = Vec::new();
        let mut new_layers: Vec<(String, (usize, usize))> = Vec::new();
        let mut li: usize = 0;

        while li < layers.len()
            invariant
                li <= layers@.len(),
                base_len == free_of(*old(alloc)).len() + ranges_total(old(self).baked_layers@),
                self.pos == old(self).pos,
                self.baked_layers@.len() == 0,
                probe.pos == old(self).pos,
                probe.baked_layers@.len() == 0,
                block_manager.wf(),
                -MAX_CHUNK_POS <= old(self).pos@[0] <= MAX_CHUNK_POS,
                -MAX_CHUNK_POS <= old(self).pos@[1] <= MAX_CHUNK_POS,
                alloc_wf(*alloc),
                span_of(*alloc) == span_of(*old(alloc)),
                uploads@.len() == li,
                new_layers@.len() == li,
                forall|j: int|
                    0 <= j < li as int ==> {
                        let verts = spec_bake_layer(
                            *block_manager,
                            layers@[j],
                            *provider,
                            old(self).pos,
                        );
                        &&& (#[trigger] uploads@[j]).vertices@ == verts
                        &&& uploads@[j].name@ == layers@[j].spec_name()
                        &&& new_layers@[j].0@ == layers@[j].spec_name()
                        &&& new_layers@[j].1.0 == uploads@[j].start
                        &&& new_layers@[j].1.1 - new_layers@[j].1.0 == verts.len() * VERTEX_STRIDE
                    },
                forall|j: int|
                    0 <= j < li as int ==> (#[trigger] new_layers@[j]).1.1 - new_layers@[j].1.0
                        == spec_layer_size(*block_manager, layers@[j], *provider, old(self).pos),
                forall|j: int|
                    0 <= j < li as int ==> layer_range_ok(#[trigger] new_layers@[j], *alloc),
                forall|j: int, k: int|
                    0 <= j < k < li as int ==> ranges_disjoint(
                        (#[trigger] new_layers@[j]).1,
                        (#[trigger] new_layers@[k]).1,
                    ),
                free_of(*alloc).len() == base_len - layers_total_prefix(
                    *block_manager,
                    layers@,
                    *provider,
                    old(self).pos,
                    li as int,
                ),
            decreases layers@.len() - li,
        {
            let layer = &layers[li];
            let verts = bake_layer(block_manager, &probe, layer, provider);
            let name = layer.name();

            if verts.len() == 0 {
                // an empty layer owns no buffer space
                let upload_name = layer.name();
                new_layers.push((name, (0, 0)));
                uploads.push(LayerUpload { name: upload_name, start: 0, vertices: verts });
            } else {
                let span = allocator_span(alloc);
                let ghost size_i = spec_layer_size(
                    *block_manager,
                    layers@[li as int],
                    *provider,
                    old(self).pos,
                );
                if verts.len() > span / VERTEX_STRIDE {
                    // The layer's bytes exceed the allocator's whole span,
                    // so no contiguous run can hold them.
                    let available = total_available(alloc);
                    let ghost fs = free_of(*alloc);
                    proof {
                        assert(size_i == verts@.len() * VERTEX_STRIDE);
                        assert(size_i > span as int) by {
                            vstd::arithmetic::div_mod::lemma_fundamental_div_mod(
                                span as int,
                                VERTEX_STRIDE as int,
                            );
                        }
                        lemma_totals_align(
                            new_layers@,
                            *block_manager,
                            layers@,
                            *provider,
                            old(self).pos,
                            li as int,
                        );
                    }
                    release_layers(alloc, &new_layers);
                    proof {
                        assert(exhausted_at(
                            *block_manager,
                            layers@,
                            *provider,
                            old(self).pos,
                            span_of(*old(alloc)),
                            free_of(*alloc),
                            available as int,
                            li as int,
                            fs,
                        ));
                        assert(some_layer_exhausted(
                            *block_manager,
                            layers@,
                            *provider,
                            old(self).pos,
                            span_of(*old(alloc)),
                            free_of(*alloc),
                            available as int,
                        ));
                    }
                    return Err(ChunkBakeError::BufferExhausted(available));
                }
                let size = verts.len() * VERTEX_STRIDE;
                let ghost pre = *alloc;
                match allocate_range(alloc, size) {
                    Ok((s, e)) => {
                        proof {
                            lemma_diff_range_len(free_of(pre), s as int, e as int);
                            assert forall|j: int|
                                0 <= j < li as int implies layer_range_ok(
                                #[trigger] new_layers@[j],
                                *alloc,
                            ) by {
                                assert(layer_range_ok(new_layers@[j], pre));
                            }
                            assert forall|j: int|
                                0 <= j < li as int implies ranges_disjoint(
                                (#[trigger] new_layers@[j]).1,
                                (s, e),
                            ) by {
                                assert(layer_range_ok(new_layers@[j], pre));
                                let a = new_layers@[j].1.0 as int;
                                let b = new_layers@[j].1.1 as int;
                                if a < b && !(b <= s as int || e as int <= a) {
                                    // An overlap would put one of the granted
                                    // offsets inside a range that is not free.
                                    let w = if a >= s as int {
                                        a
                                    } else {
                                        s as int
                                    };
                                    assert(free_run(free_of(pre), s as int, size as int));
                                    assert(free_of(pre).contains(w));
                                    assert(!free_of(pre).contains(w));
                                }
                            }
                        }
                        let upload_name = layer.name();
                        new_layers.push((name, (s, e)));
                        uploads.push(LayerUpload { name: upload_name, start: s, vertices: verts });
                    },
                    Err(fragmented) => {
                        proof {
                            assert(size_i == size as int);
                            lemma_totals_align(
                                new_layers@,
                                *block_manager,
                                layers@,
                                *provider,
                                old(self).pos,
                                li as int,
                            );
                        }
                        release_layers(alloc, &new_layers);
                        proof {
                            assert(exhausted_at(
                                *block_manager,
                                layers@,
                                *provider,
                                old(self).pos,
                                span_of(*old(alloc)),
                                free_of(*alloc),
                                fragmented as int,
                                li as int,
                                free_of(pre),
                            ));
                            assert(some_layer_exhausted(
                                *block_manager,
                                layers@,
                                *provider,
                                old(self).pos,
                                span_of(*old(alloc)),
                                free_of(*alloc),
                                fragmented as int,
                            ));
                        }
                        return Err(ChunkBakeError::BufferExhausted(fragmented));
                    },
                }
            }
            li = li + 1;
        }

        proof {
            lemma_totals_align(
                new_layers@,
                *block_manager,
                layers@,
                *provider,
                old(self).pos,
                layers@.len() as int,
            );
        }
        self.baked_layers = new_layers;
        Ok(uploads)
    }
}

/// Re-baking a chunk with identical inputs leaves the allocator's total free
/// capacity unchanged: the first bake's ranges are released and the second
/// bake's ranges take the same total size, so nothing leaks.
pub proof fn lemma_rebake_preserves_free_capacity<P: BlockStateProvider, L: RenderLayer>(
    bm: BlockManager,
    layers: Seq<L>,
    p: P,
    pos: ChunkPos,
    c1: Chunk,
    len1: int,
    c2: Chunk,
    len2: int,
)
    requires
        ranges_total(c1.baked_layers@) == layers_total(bm, layers, p, pos),
        ranges_total(c2.baked_layers@) == layers_total(bm, layers, p, pos),
        len2 == len1 + ranges_total(c1.baked_layers@) - ranges_total(c2.baked_layers@),
    ensures
        len2 == len1,
{
}

} // verus!
