// Configuration validation and builder behavior.

use chunkrs::{ChunkConfig, HashConfig};

#[test]
fn config_test_chunk_config_default() {
    let config = ChunkConfig::default();

    assert_eq!(config.min_size(), 4 * 1024);
    assert_eq!(config.avg_size(), 16 * 1024);
    assert_eq!(config.max_size(), 64 * 1024);
}

#[test]
fn config_test_chunk_config_builder() {
    let config = ChunkConfig::default()
        .with_min_size(8192)
        .with_avg_size(32768)
        .with_max_size(131072);

    assert_eq!(config.min_size(), 8192);
    assert_eq!(config.avg_size(), 32768);
    assert_eq!(config.max_size(), 131072);
}

#[test]
fn config_test_chunk_config_valid() {
    let config = ChunkConfig::new(4096, 16384, 65536).unwrap();

    assert_eq!(config.min_size(), 4096);
    assert_eq!(config.avg_size(), 16384);
    assert_eq!(config.max_size(), 65536);
}

#[test]
fn config_test_chunk_config_invalid_zero() {
    assert!(ChunkConfig::new(0, 16384, 65536).is_err());
    assert!(ChunkConfig::new(4096, 0, 65536).is_err());
    assert!(ChunkConfig::new(4096, 16384, 0).is_err());
}

#[test]
fn config_test_chunk_config_invalid_ordering() {
    assert!(
        ChunkConfig::new(32768, 16384, 65536).is_err(),
        "min > avg should fail"
    );
    assert!(
        ChunkConfig::new(4096, 65536, 16384).is_err(),
        "avg > max should fail"
    );
}

#[test]
fn config_test_chunk_config_invalid_non_power_of_two() {
    assert!(
        ChunkConfig::new(5, 16, 64).is_err(),
        "Non-power-of-2 min_size should fail"
    );
    assert!(
        ChunkConfig::new(4, 17, 64).is_err(),
        "Non-power-of-2 avg_size should fail"
    );
    assert!(
        ChunkConfig::new(4, 16, 65).is_err(),
        "Non-power-of-2 max_size should fail"
    );
}

#[test]
fn config_test_hash_config_default() {
    let config = HashConfig::default();
    assert!(config.enabled, "Hashing should be enabled by default");
}

#[test]
fn config_test_hash_config_enabled() {
    let config = HashConfig::enabled();
    assert!(config.enabled);
}

#[test]
fn config_test_hash_config_disabled() {
    let config = HashConfig::disabled();
    assert!(!config.enabled);
}

#[test]
fn config_test_hash_config_new() {
    assert!(HashConfig::new(true).enabled);
    assert!(!HashConfig::new(false).enabled);
}

#[test]
fn config_test_chunk_config_with_hash_config() {
    let hash_cfg = HashConfig::disabled();
    let chunk_cfg = ChunkConfig::default().with_hash_config(hash_cfg);

    assert!(!chunk_cfg.hash_config().enabled);
}

#[test]
fn config_test_chunk_config_validate() {
    let config = ChunkConfig::default().with_min_size(0);
    assert!(
        config.validate().is_err(),
        "Validation should catch invalid config"
    );
}

#[test]
fn mod_test_chunk_config_default() {
    let config = ChunkConfig::default();

    assert_eq!(config.min_size(), 4 * 1024);
    assert_eq!(config.avg_size(), 16 * 1024);
    assert_eq!(config.max_size(), 64 * 1024);
}

#[test]
fn mod_test_chunk_config_builder() {
    let config = ChunkConfig::default()
        .with_min_size(8192)
        .with_avg_size(32768)
        .with_max_size(131072);

    assert_eq!(config.min_size(), 8192);
    assert_eq!(config.avg_size(), 32768);
    assert_eq!(config.max_size(), 131072);
}

#[test]
fn mod_test_chunk_config_valid() {
    let config = ChunkConfig::new(4096, 16384, 65536).unwrap();

    assert_eq!(config.min_size(), 4096);
    assert_eq!(config.avg_size(), 16384);
    assert_eq!(config.max_size(), 65536);
}

#[test]
fn mod_test_chunk_config_invalid_zero() {
    assert!(ChunkConfig::new(0, 16384, 65536).is_err());
    assert!(ChunkConfig::new(4096, 0, 65536).is_err());
    assert!(ChunkConfig::new(4096, 16384, 0).is_err());
}

#[test]
fn mod_test_chunk_config_invalid_ordering() {
    assert!(
        ChunkConfig::new(32768, 16384, 65536).is_err(),
        "min > avg should fail"
    );
    assert!(
        ChunkConfig::new(4096, 65536, 16384).is_err(),
        "avg > max should fail"
    );
}

#[test]
fn mod_test_chunk_config_invalid_non_power_of_two() {
    assert!(
        ChunkConfig::new(5, 16, 64).is_err(),
        "Non-power-of-2 min_size should fail"
    );
    assert!(
        ChunkConfig::new(4, 17, 64).is_err(),
        "Non-power-of-2 avg_size should fail"
    );
    assert!(
        ChunkConfig::new(4, 16, 65).is_err(),
        "Non-power-of-2 max_size should fail"
    );
}

#[test]
fn mod_test_hash_config_default() {
    let config = HashConfig::default();
    assert!(config.enabled, "Hashing should be enabled by default");
}

#[test]
fn mod_test_hash_config_enabled() {
    let config = HashConfig::enabled();
    assert!(config.enabled);
}

#[test]
fn mod_test_hash_config_disabled() {
    let config = HashConfig::disabled();
    assert!(!config.enabled);
}

#[test]
fn mod_test_hash_config_new() {
    assert!(HashConfig::new(true).enabled);
    assert!(!HashConfig::new(false).enabled);
}

#[test]
fn mod_test_chunk_config_with_hash_config() {
    let hash_cfg = HashConfig::disabled();
    let chunk_cfg = ChunkConfig::default().with_hash_config(hash_cfg);

    assert!(!chunk_cfg.hash_config().enabled);
}

#[test]
fn mod_test_chunk_config_validate() {
    let config = ChunkConfig::default().with_min_size(0);
    assert!(
        config.validate().is_err(),
        "Validation should catch invalid config"
    );
}

#[test]
fn test_normalization_level_effective() {
    // the stored level is the default, lowered so log2(avg) - level >= 2
    let config = ChunkConfig::new(4096, 16384, 65536).unwrap();
    assert_eq!(config.normalization_level(), 2);

    let config = ChunkConfig::new(4, 8, 16).unwrap();
    assert_eq!(config.normalization_level(), 1);

    let config = ChunkConfig::new(2, 4, 8).unwrap();
    assert_eq!(config.normalization_level(), 0);
}

#[test]
fn test_with_normalization_level_and_key() {
    let config = ChunkConfig::default().with_normalization_level(3);
    assert_eq!(config.normalization_level(), 3);

    let key = [7u8; 32];
    let config = ChunkConfig::default().with_keyed_gear_table(Some(key));
    assert_eq!(config.keyed_gear_table_key(), Some(key));
    let config = config.with_keyed_gear_table(None);
    assert_eq!(config.keyed_gear_table_key(), None);
}

#[test]
fn test_invalid_config_messages() {
    let err = ChunkConfig::new(0, 16, 64).unwrap_err();
    assert!(err.describe().contains("non-zero"));
    let err = ChunkConfig::new(32, 16, 64).unwrap_err();
    assert!(err.describe().contains("min_size"));
    let err = ChunkConfig::new(4, 64, 16).unwrap_err();
    assert!(err.describe().contains("avg_size"));
    let err = ChunkConfig::new(5, 16, 64).unwrap_err();
    assert!(err.describe().contains("powers of 2"));
}
