//! Error type for chunking operations.

use vstd::prelude::*;

verus! {

/// Declaration of `std::io::Error` so that the `Io` variant can carry one.
/// Values of the type are opaque here; I/O adapters construct them.
#[verifier::external_type_specification]
#[verifier::external_body]
pub struct ExIoError(std::io::Error);

/// Errors that can occur during chunking operations.
///
/// The chunking engine itself is total at the byte level; errors arise only
/// when a configuration is rejected at construction time or when an I/O
/// adapter at the boundary surfaces a read error.
#[derive(Debug)]
pub enum ChunkError {
    /// An I/O error occurred while reading input data.
    Io(std::io::Error),
    /// A chunk would exceed the maximum allowed size. The core never
    /// produces this; adapters that enforce extra bounds may.
    ChunkTooLarge {
        /// The size that was attempted.
        actual: usize,
        /// The maximum allowed size.
        max: usize,
    },
    /// A configuration parameter was rejected at construction time.
    InvalidConfig {
        /// Description of what was invalid.
        message: &'static str,
    },
}

impl ChunkError {
    /// Renders the error as a human-readable string.
    ///
    /// Relies on `core::fmt`'s `Display` for integers and on `format!` to
    /// assemble the message.
    #[verifier::external_body]
    pub fn describe(&self) -> String {
        match self {
            ChunkError::Io(e) => format!("io error: {}", e),
            ChunkError::ChunkTooLarge { actual, max } => {
                format!("chunk too large: {} bytes (max {})", actual, max)
            },
            ChunkError::InvalidConfig { message } => {
                format!("invalid config: {}", message)
            },
        }
    }
}

impl From<std::io::Error> for ChunkError {
    fn from(e: std::io::Error) -> (r: ChunkError) {
        ChunkError::Io(e)
    }
}

impl vstd::std_specs::convert::FromSpecImpl<std::io::Error> for ChunkError {
    open spec fn obeys_from_spec() -> bool {
        true
    }

    open spec fn from_spec(e: std::io::Error) -> ChunkError {
        ChunkError::Io(e)
    }
}

} // verus!
