//! Batch kernels for a memory-retrieval layer: a size-switched batch map,
//! ragged per-item parameters, tokenization and BM25 term statistics.

pub mod batch;
pub mod ragged;
pub mod relevance;
pub mod text;
