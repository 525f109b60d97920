//! Strong hashing of chunk contents with BLAKE3.
//!
//! The digests themselves are named, not restated: [`blake3_of`] and
//! [`blake3_keyed_of`] stand for what the `blake3` crate returns, and every
//! contract that mentions a chunk hash speaks of these names.

use vstd::prelude::*;

use crate::chunk::ChunkHash;

verus! {

/// The 32-byte BLAKE3 digest of a byte sequence; a function of the bytes
/// alone.
pub uninterp spec fn blake3_of(data: Seq<u8>) -> Seq<u8>;

/// The 32-byte keyed BLAKE3 digest of a byte sequence under a 32-byte key;
/// a function of the key and the bytes alone.
pub uninterp spec fn blake3_keyed_of(key: Seq<u8>, data: Seq<u8>) -> Seq<u8>;

/// The 2048-byte keyed extendable output that seeds a derived gear table;
/// a function of the key alone.
pub uninterp spec fn gear_stream_of(key: Seq<u8>) -> Seq<u8>;

/// Relies on `blake3::hash`: a one-shot unkeyed digest of the input bytes.
#[verifier::external_body]
fn blake3_digest(data: &[u8]) -> (r: [u8; 32])
    ensures
        r@ == blake3_of(data@),
{
    *blake3::hash(data).as_bytes()
}

/// Relies on `blake3::keyed_hash`: a one-shot keyed digest of the input
/// bytes under the given 32-byte key.
#[verifier::external_body]
fn blake3_keyed_digest(key: &[u8; 32], data: &[u8]) -> (r: [u8; 32])
    ensures
        r@ == blake3_keyed_of(key@, data@),
{
    *blake3::keyed_hash(key, data).as_bytes()
}

/// Relies on `blake3::Hasher::new_keyed` and `Hasher::finalize_xof`: 2048
/// bytes of extendable output of the keyed hash over a fixed
/// domain-separation label, deterministic in the key.
#[verifier::external_body]
pub(crate) fn derive_gear_stream(key: &[u8; 32]) -> (r: Vec<u8>)
    ensures
        r@ == gear_stream_of(key@),
        r@.len() == 2048,
{
    let mut hasher = blake3::Hasher::new_keyed(key);
    hasher.update(b"chunkrs gear table v1");
    let mut out = vec![0u8; 2048];
    hasher.finalize_xof().fill(&mut out);
    out
}

/// Computes BLAKE3 digests of chunk data, optionally keyed.
///
/// Input is buffered across `update` calls; the digest of everything
/// absorbed since creation or the last `reset` comes from `finalize`.
#[derive(Debug, Clone)]
pub struct Blake3Hasher {
    /// The 32-byte key for keyed hashing, if any.
    pub key: Option<[u8; 32]>,
    /// Bytes absorbed since creation or the last reset.
    pub buf: Vec<u8>,
}

impl Blake3Hasher {
    /// Creates an unkeyed hasher.
    pub fn new() -> (r: Self)
        ensures
            r.key is None,
            r.buf@ == Seq::<u8>::empty(),
    {
        Blake3Hasher { key: None, buf: Vec::new() }
    }

    /// Creates a keyed hasher; only holders of the key can reproduce its
    /// digests.
    pub fn new_keyed(key: &[u8; 32]) -> (r: Self)
        ensures
            r.key == Some(*key),
            r.buf@ == Seq::<u8>::empty(),
    {
        Blake3Hasher { key: Some(*key), buf: Vec::new() }
    }

    /// Absorbs more data.
    pub fn update(&mut self, data: &[u8])
        ensures
            final (self).key == old(self).key,
            final (self).buf@ == old(self).buf@ + data@,
    {
        self.buf.extend_from_slice(data);
    }

    /// The digest of everything absorbed so far.
    pub fn finalize(&self) -> (r: ChunkHash)
        ensures
            r@ == match self.key {
                None => blake3_of(self.buf@),
                Some(k) => blake3_keyed_of(k@, self.buf@),
            },
    {
        match &self.key {
            None => ChunkHash::new(blake3_digest(self.buf.as_slice())),
            Some(k) => ChunkHash::new(blake3_keyed_digest(k, self.buf.as_slice())),
        }
    }

    /// Forgets everything absorbed; the key stays.
    pub fn reset(&mut self)
        ensures
            final (self).key == old(self).key,
            final (self).buf@ == Seq::<u8>::empty(),
    {
        self.buf.clear();
    }

    /// One-shot unkeyed digest of `data`.
    pub fn hash(data: &[u8]) -> (r: ChunkHash)
        ensures
            r@ == blake3_of(data@),
    {
        ChunkHash::new(blake3_digest(data))
    }
}

impl Default for Blake3Hasher {
    /// An unkeyed hasher.
    fn default() -> (r: Self)
        ensures
            r.key is None,
            r.buf@ == Seq::<u8>::empty(),
    {
        Blake3Hasher::new()
    }
}

} // verus!
