//! Core of a voxel-world renderer: block-state keys, block-model resolution,
//! mesh baking, chunk meshing with neighbour face culling, a range-allocated
//! chunk vertex buffer, and a declarative multi-pass render graph.

pub mod atlas;
pub mod bake;
pub mod block;
pub mod chunk;
pub mod chunk_alloc;
pub mod graph;
pub mod mesh;
pub mod model;
pub mod state;

pub use block::BlockstateKey;
pub use block::ChunkBlockState;
