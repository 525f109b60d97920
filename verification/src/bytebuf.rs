//! Shared, cheaply sliceable byte buffers: the `bytes` crate's `Bytes`,
//! declared for verification.
//!
//! A `Bytes` value is modeled by the byte sequence [`bytes_view`]. Every
//! operation the library uses is a small trusted function whose contract
//! states, over that view, what the `bytes` crate documents.

use vstd::prelude::*;

verus! {

/// Declaration of `bytes::Bytes`: a reference-counted byte buffer with O(1)
/// subrange views.
#[verifier::external_type_specification]
#[verifier::external_body]
pub struct ExBytes(bytes::Bytes);

/// The byte sequence a `Bytes` value holds.
pub uninterp spec fn bytes_view(b: bytes::Bytes) -> Seq<u8>;

/// Relies on `Bytes::new`: an empty buffer.
#[verifier::external_body]
pub(crate) fn bytes_new() -> (r: bytes::Bytes)
    ensures
        bytes_view(r) == Seq::<u8>::empty(),
{
    bytes::Bytes::new()
}

/// Relies on `From<Vec<u8>> for Bytes`: the buffer takes over the vector's
/// contents unchanged.
#[verifier::external_body]
pub(crate) fn bytes_from_vec(v: Vec<u8>) -> (r: bytes::Bytes)
    ensures
        bytes_view(r) == v@,
{
    bytes::Bytes::from(v)
}

/// Relies on `Bytes::slice`: a zero-copy view of the byte range
/// `start..end`, sharing memory with `b`.
#[verifier::external_body]
pub(crate) fn bytes_slice(b: &bytes::Bytes, start: usize, end: usize) -> (r: bytes::Bytes)
    requires
        start <= end <= bytes_view(*b).len(),
    ensures
        bytes_view(r) == bytes_view(*b).subrange(start as int, end as int),
{
    b.slice(start..end)
}

/// Relies on `Bytes`'s `Deref` to `[u8]`: the same bytes as a plain slice.
#[verifier::external_body]
pub(crate) fn bytes_as_slice<'a>(b: &'a bytes::Bytes) -> (r: &'a [u8])
    ensures
        r@ == bytes_view(*b),
{
    b.as_ref()
}

/// Relies on `Clone for Bytes`: a second handle on the same bytes, without
/// copying them.
pub assume_specification[ <bytes::Bytes as Clone>::clone ](b: &bytes::Bytes) -> (r: bytes::Bytes)
    ensures
        bytes_view(r) == bytes_view(*b),
;

} // verus!
