//! Block-state keys and per-voxel block states.

use vstd::prelude::*;

verus! {

/// Identifies one resolved block-model variant: an index into the block
/// manager plus a compact variant discriminator.
#[derive(Clone, Copy, PartialEq, Eq, Structural, Debug, Hash)]
pub struct BlockstateKey {
    /// An index into the block manager's block list.
    pub block: u16,
    /// Distinguishes which model a block should use without hashing strings.
    pub augment: u16,
}

/// The packed 32-bit encoding of a key: the block index in the high half,
/// the augment in the low half.
pub open spec fn spec_pack(key: BlockstateKey) -> u32 {
    (key.block as u32) << 16 | (key.augment as u32)
}

impl BlockstateKey {
    /// Pack this key into a single 32-bit integer for use as a cache key.
    pub fn pack(&self) -> (r: u32)
        ensures
            r == spec_pack(*self),
    {
        ((self.block as u32) << 16) | (self.augment as u32)
    }

    /// Recover a key from its packed encoding.
    pub fn unpack(packed: u32) -> (r: BlockstateKey)
        ensures
            r.block == packed >> 16,
            r.augment == packed & 0xffff,
    {
        proof {
            assert(((packed >> 16) as u16) as u32 == packed >> 16) by (bit_vector);
            assert(((packed & 0xffff) as u16) as u32 == packed & 0xffff) by (bit_vector);
        }
        BlockstateKey { block: (packed >> 16) as u16, augment: (packed & 0xffff) as u16 }
    }
}

/// Unpacking a packed key yields the original key: the packed encoding is
/// lossless for every `BlockstateKey`.
pub proof fn lemma_pack_round_trip(key: BlockstateKey)
    ensures
        (BlockstateKey {
            block: (spec_pack(key) >> 16) as u16,
            augment: (spec_pack(key) & 0xffff) as u16,
        }) == key,
{
    let b = key.block;
    let a = key.augment;
    assert(((((b as u32) << 16 | (a as u32)) >> 16) as u16) == b && ((((b as u32) << 16 | (
    a as u32)) & 0xffff) as u16) == a) by (bit_vector);
}

impl From<(u16, u16)> for BlockstateKey {
    /// A key from its block index and augment.
    fn from(tuple: (u16, u16)) -> (r: Self)
        ensures
            r == (BlockstateKey { block: tuple.0, augment: tuple.1 }),
    {
        BlockstateKey { block: tuple.0, augment: tuple.1 }
    }
}

impl vstd::std_specs::convert::FromSpecImpl<(u16, u16)> for BlockstateKey {
    open spec fn obeys_from_spec() -> bool {
        true
    }

    open spec fn from_spec(tuple: (u16, u16)) -> Self {
        BlockstateKey { block: tuple.0, augment: tuple.1 }
    }
}

impl From<u32> for BlockstateKey {
    /// A key from its packed 32-bit encoding.
    fn from(packed: u32) -> (r: Self)
        ensures
            r == (BlockstateKey { block: (packed >> 16) as u16, augment: (packed & 0xffff) as u16 }),
    {
        BlockstateKey::unpack(packed)
    }
}

impl vstd::std_specs::convert::FromSpecImpl<u32> for BlockstateKey {
    open spec fn obeys_from_spec() -> bool {
        true
    }

    open spec fn from_spec(packed: u32) -> Self {
        BlockstateKey { block: (packed >> 16) as u16, augment: (packed & 0xffff) as u16 }
    }
}

/// The state of one voxel, describing which model variant it holds, if any.
#[derive(Clone, Copy, PartialEq, Eq, Structural, Debug)]
pub enum ChunkBlockState {
    Air,
    State(BlockstateKey),
}

impl ChunkBlockState {
    /// True exactly when this state holds no block.
    pub fn is_air(&self) -> (r: bool)
        ensures
            r == (*self is Air),
    {
        match self {
            ChunkBlockState::Air => true,
            ChunkBlockState::State(_) => false,
        }
    }
}

} // verus!
