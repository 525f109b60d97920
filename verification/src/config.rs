//! Configuration for chunking behavior.
//!
//! - [`ChunkConfig`] controls chunk size bounds, the normalization level,
//!   hashing, and the optional 32-byte key for keyed boundary detection.
//! - [`HashConfig`] switches strong hashing of emitted chunks on or off.

use vstd::prelude::*;
use vstd::arithmetic::power2::is_pow2;
use vstd::std_specs::bits::u64_trailing_zeros;

use crate::error::ChunkError;

verus! {

/// Default minimum chunk size (4 KiB).
pub const DEFAULT_MIN_CHUNK_SIZE: usize = 4 * 1024;

/// Default average/target chunk size (16 KiB).
pub const DEFAULT_AVG_CHUNK_SIZE: usize = 16 * 1024;

/// Default maximum chunk size (64 KiB).
pub const DEFAULT_MAX_CHUNK_SIZE: usize = 64 * 1024;

/// Default normalization level for the two-stage boundary masks.
pub const DEFAULT_NORMALIZATION_LEVEL: u8 = 2;

/// The size constraints a configuration must satisfy: all sizes non-zero,
/// ordered `min <= avg <= max`, and each a power of two.
pub open spec fn sizes_valid(min_size: usize, avg_size: usize, max_size: usize) -> bool {
    &&& min_size > 0
    &&& avg_size > 0
    &&& max_size > 0
    &&& min_size <= avg_size
    &&& avg_size <= max_size
    &&& is_pow2(min_size as int)
    &&& is_pow2(avg_size as int)
    &&& is_pow2(max_size as int)
}

/// The normalization level that `ChunkConfig::new` stores: the requested
/// default, lowered so that both derived mask indices stay in range
/// (`log2(avg) - level >= 2`, saturating at zero).
pub open spec fn effective_level_spec(avg_size: usize) -> u8 {
    let bits = u64_trailing_zeros(avg_size as u64);
    if bits >= 2 + DEFAULT_NORMALIZATION_LEVEL as u32 {
        DEFAULT_NORMALIZATION_LEVEL
    } else if bits >= 2 {
        (bits - 2) as u8
    } else {
        0
    }
}

/// The default sizes satisfy the size constraints.
pub proof fn lemma_default_sizes_valid()
    ensures
        sizes_valid(DEFAULT_MIN_CHUNK_SIZE, DEFAULT_AVG_CHUNK_SIZE, DEFAULT_MAX_CHUNK_SIZE),
{
    reveal_with_fuel(is_pow2, 20);
}

/// Decides whether `n` is a power of two.
fn is_power_of_two(n: usize) -> (r: bool)
    ensures
        r == is_pow2(n as int),
{
    if n == 0 {
        proof {
            reveal(is_pow2);
        }
        return false;
    }
    let mut m: usize = n;
    while m % 2 == 0
        invariant
            m >= 1,
            is_pow2(n as int) == is_pow2(m as int),
        decreases m,
    {
        proof {
            reveal(is_pow2);
        }
        m = m / 2;
    }
    proof {
        reveal(is_pow2);
    }
    m == 1
}

/// Configuration for strong hashing of emitted chunks.
#[derive(Debug, Clone, Copy, PartialEq, Eq, Hash)]
pub struct HashConfig {
    /// Whether to compute a strong hash for each chunk.
    pub enabled: bool,
}

impl HashConfig {
    /// Creates a new hash configuration.
    pub fn new(enabled: bool) -> (r: Self)
        ensures
            r.enabled == enabled,
    {
        HashConfig { enabled }
    }

    /// A configuration with hashing switched on.
    pub fn enabled() -> (r: Self)
        ensures
            r.enabled,
    {
        HashConfig { enabled: true }
    }

    /// A configuration with hashing switched off.
    pub fn disabled() -> (r: Self)
        ensures
            !r.enabled,
    {
        HashConfig { enabled: false }
    }
}

impl Default for HashConfig {
    /// Hashing is on by default.
    fn default() -> (r: Self)
        ensures
            r.enabled,
    {
        HashConfig { enabled: true }
    }
}

/// Validated configuration for content-defined chunking.
///
/// Sizes must be non-zero powers of two with `min <= avg <= max`. The
/// normalization level steers how tightly chunk sizes cluster around the
/// average. An optional 32-byte key derives a per-instance gear table.
#[derive(Debug, Clone, Copy, PartialEq, Eq, Hash)]
pub struct ChunkConfig {
    /// Minimum chunk size in bytes.
    pub min_size: usize,
    /// Average/target chunk size in bytes.
    pub avg_size: usize,
    /// Maximum chunk size in bytes.
    pub max_size: usize,
    /// Normalization level for the two-stage boundary masks.
    pub normalization_level: u8,
    /// Whether emitted chunks carry a strong hash.
    pub hash_config: HashConfig,
    /// Optional 32-byte key for keyed boundary detection.
    pub key: Option<[u8; 32]>,
}

impl ChunkConfig {
    /// Creates a configuration with the given size bounds.
    ///
    /// Rejects, with a distinct `InvalidConfig` message each: a zero size,
    /// `min > avg`, `avg > max`, and a size that is not a power of two.
    /// On success the stored normalization level is the default, lowered so
    /// that the derived mask indices stay in range.
    pub fn new(min_size: usize, avg_size: usize, max_size: usize) -> (r: Result<
        ChunkConfig,
        ChunkError,
    >)
        ensures
            r is Ok <==> sizes_valid(min_size, avg_size, max_size),
            r matches Ok(c) ==> c == (ChunkConfig {
                min_size,
                avg_size,
                max_size,
                normalization_level: effective_level_spec(avg_size),
                hash_config: HashConfig { enabled: true },
                key: None,
            }),
            r matches Err(e) ==> e matches ChunkError::InvalidConfig { .. },
    {
        if min_size == 0 || avg_size == 0 || max_size == 0 {
            return Err(ChunkError::InvalidConfig { message: "chunk sizes must be non-zero" });
        }
        if min_size > avg_size {
            return Err(
                ChunkError::InvalidConfig { message: "min_size cannot be greater than avg_size" },
            );
        }
        if avg_size > max_size {
            return Err(
                ChunkError::InvalidConfig { message: "avg_size cannot be greater than max_size" },
            );
        }
        if !is_power_of_two(min_size) || !is_power_of_two(avg_size) || !is_power_of_two(max_size) {
            return Err(
                ChunkError::InvalidConfig {
                    message: "chunk sizes should be powers of 2 for optimal performance",
                },
            );
        }

        let avg_bits: u32 = (avg_size as u64).trailing_zeros();
        let effective_level: u8 = if avg_bits >= 2 + DEFAULT_NORMALIZATION_LEVEL as u32 {
            DEFAULT_NORMALIZATION_LEVEL
        } else if avg_bits >= 2 {
            (avg_bits - 2) as u8
        } else {
            0
        };

        Ok(
            ChunkConfig {
                min_size,
                avg_size,
                max_size,
                normalization_level: effective_level,
                hash_config: HashConfig::default(),
                key: None,
            },
        )
    }

    /// Sets the minimum chunk size without re-validating.
    pub fn with_min_size(self, size: usize) -> (r: Self)
        ensures
            r == (ChunkConfig { min_size: size, ..self }),
    {
        ChunkConfig { min_size: size, ..self }
    }

    /// Sets the average/target chunk size without re-validating.
    pub fn with_avg_size(self, size: usize) -> (r: Self)
        ensures
            r == (ChunkConfig { avg_size: size, ..self }),
    {
        ChunkConfig { avg_size: size, ..self }
    }

    /// Sets the maximum chunk size without re-validating.
    pub fn with_max_size(self, size: usize) -> (r: Self)
        ensures
            r == (ChunkConfig { max_size: size, ..self }),
    {
        ChunkConfig { max_size: size, ..self }
    }

    /// Sets the normalization level without re-validating.
    pub fn with_normalization_level(self, level: u8) -> (r: Self)
        ensures
            r == (ChunkConfig { normalization_level: level, ..self }),
    {
        ChunkConfig { normalization_level: level, ..self }
    }

    /// Sets the hash configuration.
    pub fn with_hash_config(self, config: HashConfig) -> (r: Self)
        ensures
            r == (ChunkConfig { hash_config: config, ..self }),
    {
        ChunkConfig { hash_config: config, ..self }
    }

    /// Sets the key for keyed gear-table derivation, or clears it.
    pub fn with_keyed_gear_table(self, key: Option<[u8; 32]>) -> (r: Self)
        ensures
            r == (ChunkConfig { key, ..self }),
    {
        ChunkConfig { key, ..self }
    }

    /// Returns the minimum chunk size.
    pub fn min_size(&self) -> (r: usize)
        ensures
            r == self.min_size,
    {
        self.min_size
    }

    /// Returns the average/target chunk size.
    pub fn avg_size(&self) -> (r: usize)
        ensures
            r == self.avg_size,
    {
        self.avg_size
    }

    /// Returns the maximum chunk size.
    pub fn max_size(&self) -> (r: usize)
        ensures
            r == self.max_size,
    {
        self.max_size
    }

    /// Returns the normalization level.
    pub fn normalization_level(&self) -> (r: u8)
        ensures
            r == self.normalization_level,
    {
        self.normalization_level
    }

    /// Returns the hash configuration.
    pub fn hash_config(&self) -> (r: &HashConfig)
        ensures
            r == self.hash_config,
    {
        &self.hash_config
    }

    /// Returns the key for keyed gear-table derivation, if set.
    pub fn keyed_gear_table_key(&self) -> (r: Option<[u8; 32]>)
        ensures
            r == self.key,
    {
        self.key
    }

    /// Re-runs the size checks on the current values.
    pub fn validate(&self) -> (r: Result<(), ChunkError>)
        ensures
            r is Ok <==> sizes_valid(self.min_size, self.avg_size, self.max_size),
            r matches Err(e) ==> e matches ChunkError::InvalidConfig { .. },
    {
        match ChunkConfig::new(self.min_size, self.avg_size, self.max_size) {
            Ok(_) => Ok(()),
            Err(e) => Err(e),
        }
    }
}

impl Default for ChunkConfig {
    /// The default configuration: 4 KiB / 16 KiB / 64 KiB sizes, the default
    /// normalization level, hashing enabled, no key.
    fn default() -> (r: Self)
        ensures
            r == (ChunkConfig {
                min_size: DEFAULT_MIN_CHUNK_SIZE,
                avg_size: DEFAULT_AVG_CHUNK_SIZE,
                max_size: DEFAULT_MAX_CHUNK_SIZE,
                normalization_level: DEFAULT_NORMALIZATION_LEVEL,
                hash_config: HashConfig { enabled: true },
                key: None,
            }),
    {
        ChunkConfig {
            min_size: DEFAULT_MIN_CHUNK_SIZE,
            avg_size: DEFAULT_AVG_CHUNK_SIZE,
            max_size: DEFAULT_MAX_CHUNK_SIZE,
            normalization_level: DEFAULT_NORMALIZATION_LEVEL,
            hash_config: HashConfig::default(),
            key: None,
        }
    }
}

} // verus!
