//! Chunk values and their strong-hash identity.
//!
//! - [`ChunkHash`] is a 32-byte digest with lossless hex encoding.
//! - [`Chunk`] carries one contiguous byte range of the input stream,
//!   together with its stream offset and optional hash.

use vstd::prelude::*;
use vstd::std_specs::iter::IteratorSpec;

use crate::bytebuf::{bytes_as_slice, bytes_view};

verus! {

broadcast use vstd::string::group_string_axioms;

/// The lowercase hex character for a value below 16.
pub open spec fn hex_digit(v: u8) -> char {
    if v < 10 {
        ((v + 48) as u8) as char
    } else {
        ((v + 87) as u8) as char
    }
}

/// The lowercase hex encoding of a byte sequence: two characters per byte,
/// high nibble first.
pub open spec fn hex_of(s: Seq<u8>) -> Seq<char> {
    Seq::new(s.len() * 2, |i: int| if i % 2 == 0 {
        hex_digit(s[i / 2] >> 4)
    } else {
        hex_digit(s[i / 2] & 0xf)
    })
}

/// The value of a hex character, if it is one. Both cases are accepted.
pub open spec fn hex_val(c: char) -> Option<u8> {
    let u = c as u32;
    if 48 <= u <= 57 {
        Some((u - 48) as u8)
    } else if 97 <= u <= 102 {
        Some((u - 87) as u8)
    } else if 65 <= u <= 70 {
        Some((u - 55) as u8)
    } else {
        None
    }
}

/// The value of a hex character, zero for any other character.
pub open spec fn hex_val_or0(c: char) -> u8 {
    match hex_val(c) {
        Some(v) => v,
        None => 0,
    }
}

/// Whether `s` is a well-formed hex spelling of a 32-byte hash: exactly 64
/// hex characters.
pub open spec fn is_hex64(s: Seq<char>) -> bool {
    &&& s.len() == 64
    &&& forall|i: int| 0 <= i < 64 ==> hex_val(#[trigger] s[i]) is Some
}

/// The bytes a hex character sequence spells, two characters per byte.
pub open spec fn hex_bytes(s: Seq<char>) -> Seq<u8> {
    Seq::new(s.len() / 2, |i: int| (hex_val_or0(s[2 * i]) * 16 + hex_val_or0(s[2 * i + 1])) as u8)
}

/// A fixed-size strong digest identifying chunk content.
///
/// Equality and ordering are those of the underlying 32 bytes
/// (lexicographic). The hex encoding is 64 lowercase characters and decodes
/// back losslessly; see [`lemma_hex_round_trip`].
#[derive(Debug, Clone, Copy, PartialEq, Eq, PartialOrd, Ord, Hash)]
pub struct ChunkHash(pub [u8; 32]);

impl View for ChunkHash {
    type V = Seq<u8>;

    open spec fn view(&self) -> Seq<u8> {
        self.0@
    }
}

impl ChunkHash {
    /// The size of the hash in bytes.
    pub const SIZE: usize = 32;

    /// Creates a chunk hash from a byte array.
    pub fn new(bytes: [u8; 32]) -> (r: Self)
        ensures
            r@ == bytes@,
    {
        ChunkHash(bytes)
    }

    /// Creates a chunk hash from a slice; `None` unless it is exactly 32
    /// bytes long.
    pub fn from_slice(slice: &[u8]) -> (r: Option<Self>)
        ensures
            r is Some <==> slice@.len() == 32,
            r matches Some(h) ==> h@ == slice@,
    {
        if slice.len() != 32 {
            return None;
        }
        let mut bytes = [0u8; 32];
        let mut i: usize = 0;
        while i < 32
            invariant
                i <= 32,
                bytes@.len() == 32,
                slice@.len() == 32,
                forall|j: int| 0 <= j < i ==> bytes@[j] == slice@[j],
            decreases 32 - i,
        {
            bytes[i] = slice[i];
            i += 1;
        }
        proof {
            assert(bytes@ =~= slice@);
        }
        Some(ChunkHash(bytes))
    }

    /// Returns the hash as a byte array reference.
    pub fn as_bytes(&self) -> (r: &[u8; 32])
        ensures
            *r == self.0,
    {
        &self.0
    }

    /// Returns the hash as a lowercase hex string of 64 characters.
    pub fn to_hex(&self) -> (r: String)
        ensures
            r@ == hex_of(self@),
            r@.len() == 64,
    {
        let mut out: Vec<u8> = Vec::new();
        let mut i: usize = 0;
        while i < 32
            invariant
                i <= 32,
                out@.len() == 2 * i,
                forall|j: int|
                    0 <= j < out@.len() ==> #[trigger] out@[j] < 128 && out@[j] as char == hex_of(
                        self@,
                    )[j],
            decreases 32 - i,
        {
            let b = self.0[i];
            proof {
                assert(b >> 4 < 16 && b & 0xf < 16) by (bit_vector);
            }
            let hi: u8 = b >> 4;
            let lo: u8 = b & 0xf;
            out.push(
                if hi < 10 {
                    hi + 48
                } else {
                    hi + 87
                },
            );
            out.push(
                if lo < 10 {
                    lo + 48
                } else {
                    lo + 87
                },
            );
            i += 1;
        }
        let r = ascii_string(out);
        proof {
            assert(r@ =~= hex_of(self@));
        }
        r
    }

    /// Parses a hex string into a chunk hash; `None` unless the string is
    /// exactly 64 hex characters.
    pub fn from_hex(hex_str: &str) -> (r: Option<Self>)
        ensures
            r is Some <==> is_hex64(hex_str@),
            r matches Some(h) ==> h@ == hex_bytes(hex_str@),
    {
        let ghost s = hex_str@;
        let mut it = hex_str.chars();
        let mut bytes = [0u8; 32];
        let mut i: usize = 0;
        while i < 32
            invariant
                i <= 32,
                bytes@.len() == 32,
                s == hex_str@,
                it.remaining() =~= s.skip(2 * i),
                s.len() >= 2 * i,
                forall|j: int| 0 <= j < 2 * i ==> hex_val(#[trigger] s[j]) is Some,
                forall|j: int| 0 <= j < i ==> bytes@[j] == hex_bytes(s)[j],
            decreases 32 - i,
        {
            let hi_c = match it.next() {
                Some(c) => c,
                None => {
                    return None;
                },
            };
            let hi = match hex_char_val(hi_c) {
                Some(v) => v,
                None => {
                    return None;
                },
            };
            let lo_c = match it.next() {
                Some(c) => c,
                None => {
                    return None;
                },
            };
            let lo = match hex_char_val(lo_c) {
                Some(v) => v,
                None => {
                    return None;
                },
            };
            bytes[i] = hi * 16 + lo;
            proof {
                assert(s[2 * i as int] == hi_c && s[2 * i as int + 1] == lo_c);
                assert(s.skip(2 * i as int).drop_first().drop_first() =~= s.skip(2 * (i + 1) as int));
            }
            i += 1;
        }
        if it.next().is_some() {
            return None;
        }
        proof {
            assert(s.skip(64).len() == 0);
            assert(s.len() == 64);
            assert(bytes@ =~= hex_bytes(s));
        }
        Some(ChunkHash(bytes))
    }
}

/// The executable twin of [`hex_val`].
fn hex_char_val(c: char) -> (r: Option<u8>)
    ensures
        r == hex_val(c),
{
    let u = c as u32;
    if 48 <= u && u <= 57 {
        Some((u - 48) as u8)
    } else if 97 <= u && u <= 102 {
        Some((u - 87) as u8)
    } else if 65 <= u && u <= 70 {
        Some((u - 55) as u8)
    } else {
        None
    }
}

/// Relies on `String::from_utf8`: bytes below 128 decode to exactly those
/// characters.
#[verifier::external_body]
fn ascii_string(v: Vec<u8>) -> (r: String)
    requires
        forall|i: int| 0 <= i < v@.len() ==> v@[i] < 128,
    ensures
        r@.len() == v@.len(),
        forall|i: int| 0 <= i < v@.len() ==> r@[i] == v@[i] as char,
{
    String::from_utf8(v).unwrap_or_default()
}

/// A content-defined chunk: one contiguous byte range of the input stream,
/// its position in that stream, and an optional strong hash of its bytes.
///
/// The data is a zero-copy view into the pushed input wherever the whole
/// chunk came from a single batch.
#[derive(Debug, Clone)]
pub struct Chunk {
    /// The chunk data.
    pub data: bytes::Bytes,
    /// The byte position of `data[0]` in the original stream, if tracked.
    pub offset: Option<u64>,
    /// The strong hash of `data`, when hashing is enabled.
    pub hash: Option<ChunkHash>,
}

impl Chunk {
    /// The byte sequence this chunk holds.
    pub open spec fn contents(&self) -> Seq<u8> {
        bytes_view(self.data)
    }

    /// The chunk's start position: its offset, or 0 when none is tracked.
    pub open spec fn start_spec(&self) -> u64 {
        match self.offset {
            Some(o) => o,
            None => 0,
        }
    }

    /// Creates a chunk with no offset and no hash.
    pub fn new(data: bytes::Bytes) -> (r: Self)
        ensures
            r == (Chunk { data, offset: None, hash: None }),
    {
        Chunk { data, offset: None, hash: None }
    }

    /// Creates a chunk positioned at `offset`.
    pub fn with_offset(data: bytes::Bytes, offset: u64) -> (r: Self)
        ensures
            r == (Chunk { data, offset: Some(offset), hash: None }),
    {
        Chunk { data, offset: Some(offset), hash: None }
    }

    /// Creates a chunk carrying a strong hash.
    pub fn with_hash(data: bytes::Bytes, hash: ChunkHash) -> (r: Self)
        ensures
            r == (Chunk { data, offset: None, hash: Some(hash) }),
    {
        Chunk { data, offset: None, hash: Some(hash) }
    }

    /// Sets the offset, for chaining.
    pub fn set_offset(self, offset: u64) -> (r: Self)
        ensures
            r == (Chunk { offset: Some(offset), ..self }),
    {
        Chunk { offset: Some(offset), ..self }
    }

    /// Sets the hash, for chaining.
    pub fn set_hash(self, hash: ChunkHash) -> (r: Self)
        ensures
            r == (Chunk { hash: Some(hash), ..self }),
    {
        Chunk { hash: Some(hash), ..self }
    }

    /// Returns the length of the chunk data in bytes.
    pub fn len(&self) -> (r: usize)
        ensures
            r == self.contents().len(),
    {
        bytes_as_slice(&self.data).len()
    }

    /// Returns whether the chunk holds no data.
    pub fn is_empty(&self) -> (r: bool)
        ensures
            r == (self.contents().len() == 0),
    {
        bytes_as_slice(&self.data).len() == 0
    }

    /// Returns a reference to the chunk data.
    pub fn data(&self) -> (r: &bytes::Bytes)
        ensures
            *r == self.data,
    {
        &self.data
    }

    /// Returns the offset in the original stream, if tracked.
    pub fn offset(&self) -> (r: Option<u64>)
        ensures
            r == self.offset,
    {
        self.offset
    }

    /// Returns the strong hash, if one was computed.
    pub fn hash(&self) -> (r: Option<ChunkHash>)
        ensures
            r == self.hash,
    {
        self.hash
    }

    /// Returns the start position: the offset, or 0 when none is tracked.
    pub fn start(&self) -> (r: u64)
        ensures
            r == self.start_spec(),
    {
        match self.offset {
            Some(o) => o,
            None => 0,
        }
    }

    /// Returns the position one past the chunk's last byte.
    pub fn end(&self) -> (r: u64)
        requires
            self.start_spec() + self.contents().len() <= u64::MAX,
        ensures
            r == self.start_spec() + self.contents().len(),
    {
        self.start() + bytes_as_slice(&self.data).len() as u64
    }

    /// Returns the chunk's byte positions as the range `start..end`.
    pub fn range(&self) -> (r: core::ops::Range<u64>)
        requires
            self.start_spec() + self.contents().len() <= u64::MAX,
        ensures
            r.start == self.start_spec(),
            r.end == self.start_spec() + self.contents().len(),
    {
        self.start()..self.end()
    }

    /// Renders the chunk as `Chunk(N bytes @ OFFSET, hash=HEX)`, omitting
    /// the offset and hash parts when they are absent.
    ///
    /// Relies on `core::fmt`'s `Display` for integers and on `format!` to
    /// assemble the text.
    #[verifier::external_body]
    pub fn describe(&self) -> String {
        let mut s = format!("Chunk({} bytes", self.data.len());
        if let Some(offset) = self.offset {
            s = format!("{} @ {}", s, offset);
        }
        if let Some(hash) = self.hash {
            s = format!("{}, hash={}", s, hash.to_hex());
        }
        format!("{})", s)
    }

    /// Consumes the chunk and returns the underlying data.
    pub fn into_data(self) -> (r: bytes::Bytes)
        ensures
            r == self.data,
    {
        self.data
    }

    /// Consumes the chunk and returns its data and hash.
    pub fn into_parts(self) -> (r: (bytes::Bytes, Option<ChunkHash>))
        ensures
            r.0 == self.data,
            r.1 == self.hash,
    {
        (self.data, self.hash)
    }
}

impl From<bytes::Bytes> for Chunk {
    fn from(data: bytes::Bytes) -> (r: Chunk) {
        Chunk::new(data)
    }
}

impl vstd::std_specs::convert::FromSpecImpl<bytes::Bytes> for Chunk {
    open spec fn obeys_from_spec() -> bool {
        true
    }

    open spec fn from_spec(data: bytes::Bytes) -> Chunk {
        Chunk { data, offset: None, hash: None }
    }
}

/// Hex encoding loses nothing: decoding the encoding of any hash gives the
/// hash back.
pub proof fn lemma_hex_round_trip(h: ChunkHash)
    ensures
        is_hex64(hex_of(h@)),
        hex_bytes(hex_of(h@)) == h@,
{
    let s = hex_of(h@);
    assert forall|i: int| 0 <= i < 64 implies hex_val(#[trigger] s[i]) is Some by {
        let b = h@[i / 2];
        assert(b >> 4 < 16 && b & 0xf < 16) by (bit_vector);
    }
    assert forall|i: int| 0 <= i < 32 implies hex_bytes(s)[i] == h@[i] by {
        let b = h@[i];
        assert(b >> 4 < 16 && b & 0xf < 16) by (bit_vector);
        assert((b >> 4) * 16 + (b & 0xf) == b) by (bit_vector);
    }
    assert(hex_bytes(s) =~= h@);
}

} // verus!
