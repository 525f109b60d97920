//! Reusable byte buffers for chunking I/O adapters.
//!
//! A [`Buffer`] is a plain growable byte vector created with a generous
//! capacity, so adapters can fill and clear it repeatedly without
//! reallocating.

use vstd::prelude::*;

verus! {

/// Capacity every buffer is created with (64 KiB).
pub const DEFAULT_BUFFER_SIZE: usize = 64 * 1024;

/// A reusable byte buffer.
pub struct Buffer {
    /// The bytes the buffer holds.
    pub data: Vec<u8>,
}

impl View for Buffer {
    type V = Seq<u8>;

    open spec fn view(&self) -> Seq<u8> {
        self.data@
    }
}

impl Buffer {
    /// Provides an empty buffer with at least the default capacity.
    pub fn take() -> (r: Buffer)
        ensures
            r@.len() == 0,
    {
        Buffer { data: Vec::with_capacity(DEFAULT_BUFFER_SIZE) }
    }

    /// Clears the buffer without deallocating.
    pub fn clear(&mut self)
        ensures
            final (self)@.len() == 0,
    {
        self.data.clear();
    }

    /// Appends data to the buffer.
    pub fn extend_from_slice(&mut self, data: &[u8])
        ensures
            final (self)@ == old(self)@ + data@,
    {
        self.data.extend_from_slice(data);
    }

    /// Returns the number of bytes the buffer holds.
    pub fn len(&self) -> (r: usize)
        ensures
            r == self@.len(),
    {
        self.data.len()
    }

    /// Returns whether the buffer holds no bytes.
    pub fn is_empty(&self) -> (r: bool)
        ensures
            r == (self@.len() == 0),
    {
        self.data.is_empty()
    }

}

impl Default for Buffer {
    /// An empty buffer with the default capacity.
    fn default() -> (r: Self)
        ensures
            r@.len() == 0,
    {
        Buffer::take()
    }
}

} // verus!
