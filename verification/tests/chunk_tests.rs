// The Chunk value type and the error type.

use bytes::Bytes;
use chunkrs::{Chunk, ChunkError, ChunkHash};

#[test]
fn test_chunk_creation() {
    let chunk = Chunk::new(Bytes::from(&b"hello"[..]));

    assert_eq!(chunk.len(), 5);
    assert!(!chunk.is_empty());
    assert_eq!(chunk.offset(), None);
    assert!(chunk.hash().is_none());
}

#[test]
fn test_chunk_empty() {
    let chunk = Chunk::new(Bytes::from(&b""[..]));

    assert!(chunk.is_empty());
    assert_eq!(chunk.len(), 0);
}

#[test]
fn test_chunk_with_offset() {
    let chunk = Chunk::with_offset(Bytes::from(&b"data"[..]), 100);

    assert_eq!(chunk.offset(), Some(100));
    assert_eq!(chunk.start(), 100);
    assert_eq!(chunk.end(), 104);
}

#[test]
fn test_chunk_with_hash() {
    let hash = ChunkHash::new([0x12; 32]);
    let chunk = Chunk::with_hash(Bytes::from(&b"data"[..]), hash);

    assert_eq!(chunk.hash(), Some(hash));
}

#[test]
fn test_chunk_builder_pattern() {
    let hash = ChunkHash::new([0xAB; 32]);
    let chunk = Chunk::new(Bytes::from(&b"test"[..]))
        .set_offset(50)
        .set_hash(hash);

    assert_eq!(chunk.len(), 4);
    assert_eq!(chunk.offset(), Some(50));
    assert_eq!(chunk.hash(), Some(hash));
}

#[test]
fn test_chunk_range() {
    let chunk = Chunk::with_offset(Bytes::from(&b"hello world"[..]), 10);

    assert_eq!(chunk.range(), 10..21);
}

#[test]
fn test_chunk_from_bytes() {
    let bytes = Bytes::from_static(b"test");
    let chunk: Chunk = bytes.into();

    assert_eq!(chunk.len(), 4);
}

#[test]
fn test_chunk_into_data() {
    let original = Bytes::from(&b"test data"[..]);
    let chunk = Chunk::new(original.clone());
    let extracted = chunk.into_data();

    assert_eq!(extracted, original);
}

#[test]
fn test_chunk_into_parts() {
    let hash = ChunkHash::new([0x99; 32]);
    let chunk = Chunk::new(Bytes::from(&b"data"[..])).set_hash(hash);

    let (data, extracted_hash) = chunk.into_parts();

    assert_eq!(data.as_ref(), b"data");
    assert_eq!(extracted_hash, Some(hash));
}

#[test]
fn test_chunk_start_defaults_to_zero() {
    let chunk = Chunk::new(Bytes::from(&b"test"[..]));
    assert_eq!(chunk.start(), 0);
    assert_eq!(chunk.end(), 4);
}

#[test]
fn test_io_error_conversion() {
    let io_err = std::io::Error::new(std::io::ErrorKind::NotFound, "test");
    let err: ChunkError = io_err.into();
    assert!(matches!(err, ChunkError::Io(_)));
}

#[test]
fn test_display() {
    let err = ChunkError::ChunkTooLarge {
        actual: 100,
        max: 50,
    };
    assert!(err.describe().contains("chunk too large"));
}

#[test]
fn test_error_describe_variants() {
    let io_err = std::io::Error::new(std::io::ErrorKind::Other, "boom");
    assert!(ChunkError::Io(io_err).describe().contains("io error"));
    let err = ChunkError::InvalidConfig { message: "bad" };
    assert!(err.describe().contains("invalid config: bad"));
    let err = ChunkError::ChunkTooLarge { actual: 9, max: 3 };
    assert!(err.describe().contains("9"));
    assert!(err.describe().contains("3"));
}

#[test]
fn test_chunk_display() {
    let chunk = Chunk::with_offset(Bytes::from(&b"data"[..]), 100);
    let s = chunk.describe();

    assert!(s.contains("4 bytes"));
    assert!(s.contains("@ 100"));
}
