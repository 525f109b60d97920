//! Streaming content-defined chunking (CDC).
//!
//! The crate turns a byte stream into content-defined chunks with optional
//! strong hashes. Boundaries are found with the FastCDC rolling-hash
//! algorithm, so identical data produces identical chunks no matter how the
//! input is split into batches.

pub mod buffer;
pub mod bytebuf;
pub mod cdc;
pub mod chunk;
pub mod chunker;
pub mod config;
pub mod error;
pub mod hash;
pub mod laws;
pub mod tables;
pub mod ultracdc;

pub use chunk::{Chunk, ChunkHash};
pub use chunker::Chunker;
pub use config::{ChunkConfig, HashConfig};
pub use error::ChunkError;
