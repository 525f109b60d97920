// The FastCDC kernel, the UltraCDC cut-point finder, the static tables, and
// the reusable buffer.

use chunkrs::buffer::{Buffer, DEFAULT_BUFFER_SIZE};
use chunkrs::cdc::FastCdc;
use chunkrs::tables::{mask_at, GEAR_TABLE};
use chunkrs::ultracdc::{Options, UltraCDC};

#[test]
fn test_fastcdc_min_size_constraint() {
    let mut cdc = FastCdc::new(4, 16, 64);

    // No boundaries before min_size
    for _ in 0..3 {
        assert!(!cdc.update(0xFF), "No boundary before min_size");
    }
}

#[test]
fn test_fastcdc_boundary_detection() {
    let mut cdc = FastCdc::new(4, 16, 64);

    // After min_size, should find boundaries
    let mut found_boundary = false;
    for i in 0..200 {
        if cdc.update((i % 256) as u8) {
            found_boundary = true;
            break;
        }
    }
    assert!(found_boundary, "Must find boundary within 200 bytes");
}

#[test]
fn test_fastcdc_max_size_enforcement() {
    let mut cdc = FastCdc::new(2, 8, 8);

    // Process bytes up to just before max
    for _ in 0..7 {
        assert!(!cdc.update(0xFF), "No boundary before max_size");
    }

    // At max_size, must force boundary
    assert!(cdc.update(0xFF), "Must force boundary at max_size");
}

#[test]
fn test_fastcdc_reset() {
    let mut cdc = FastCdc::new(4, 16, 64);

    // Process some data (less than min_size to avoid boundary)
    for _ in 0..3 {
        cdc.update(0xAA);
    }

    let bytes_processed = cdc.bytes_since_boundary();
    assert!(
        bytes_processed > 0,
        "Should have processed bytes: {}",
        bytes_processed
    );

    cdc.reset();

    assert_eq!(
        cdc.bytes_since_boundary(),
        0,
        "Reset must clear byte counter"
    );
    assert_eq!(cdc.hash(), 0, "Reset must clear hash");
}

#[test]
fn test_fastcdc_determinism() {
    let data: Vec<u8> = (0..500).map(|i| (i % 256) as u8).collect();

    let mut cdc1 = FastCdc::new(16, 64, 256);
    let mut cdc2 = FastCdc::new(16, 64, 256);

    let mut boundaries1 = Vec::new();
    let mut boundaries2 = Vec::new();

    for (i, &byte) in data.iter().enumerate() {
        if cdc1.update(byte) {
            boundaries1.push(i + 1);
        }
    }

    for (i, &byte) in data.iter().enumerate() {
        if cdc2.update(byte) {
            boundaries2.push(i + 1);
        }
    }

    assert_eq!(
        boundaries1, boundaries2,
        "Same input must produce same boundaries"
    );
}

#[test]
fn test_fastcdc_find_boundary() {
    let mut cdc = FastCdc::new(4, 16, 64);
    let data = vec![0x55u8; 100];

    let boundary = cdc.find_boundary(&data);

    assert!(boundary.is_some(), "Must find boundary in data");
    let pos = boundary.unwrap();
    assert!(pos >= 4, "Boundary must be at or after min_size");
    assert!(pos <= 64, "Boundary must be at or before max_size");
}

#[test]
fn test_fastcdc_default_config() {
    let cdc = FastCdc::default();

    assert_eq!(cdc.min_size(), 4 * 1024);
    assert_eq!(cdc.avg_size(), 16 * 1024);
    assert_eq!(cdc.max_size(), 64 * 1024);
}

#[test]
fn test_fastcdc_size_accessors() {
    let cdc = FastCdc::new(8, 32, 128);

    assert_eq!(cdc.min_size(), 8);
    assert_eq!(cdc.avg_size(), 32);
    assert_eq!(cdc.max_size(), 128);
}

#[test]
fn test_mask_constants_bit_exact() {
    // low-bit masks up to index 12, then the four-constant cycle
    assert_eq!(mask_at(0), 0);
    assert_eq!(mask_at(1), 0x1);
    assert_eq!(mask_at(12), 0x0fff);
    assert_eq!(mask_at(13), 0x0000_0000_d903_0353);
    assert_eq!(mask_at(14), 0x0000_0001_b207_06a7);
    assert_eq!(mask_at(15), 0x0000_0000_3590_7035);
    assert_eq!(mask_at(16), 0x0000_0006_b20e_e06a);
    assert_eq!(mask_at(17), 0x0000_0000_d903_0353);
    assert_eq!(mask_at(20), 0x0000_0006_b20e_e06a);
}

#[test]
fn test_gear_table_bit_exact() {
    assert_eq!(GEAR_TABLE.len(), 256);
    assert_eq!(GEAR_TABLE[0], 0x4d65_8221_07fc_fd52);
    assert_eq!(GEAR_TABLE[1], 0x7862_9a0f_5f3f_164f);
    assert_eq!(GEAR_TABLE[255], 0xaa80_d056_4cf2_0a65);
}

#[test]
fn test_default_options() {
    let cdc = UltraCDC::new();
    assert_eq!(cdc.options.min_size, 2048);
    assert_eq!(cdc.options.normal_size, 10240);
    assert_eq!(cdc.options.max_size, 65536);
}

#[test]
fn test_find_cut_point_small_data() {
    let cdc = UltraCDC::new();
    let data = vec![0u8; 100]; // below min_size
    assert_eq!(cdc.find_cut_point(&data, data.len()), 100);
}

#[test]
fn test_chunk_stream() {
    let cdc = UltraCDC::with_options(Options::new(64, 256, 512).unwrap()).unwrap();
    let data: Vec<u8> = (0..10000).map(|i| (i % 256) as u8).collect();
    let boundaries = cdc.chunk_stream(&data);

    assert!(!boundaries.is_empty());
    for i in 1..boundaries.len() {
        assert!(boundaries[i] > boundaries[i - 1]);
        let size = boundaries[i] - boundaries[i - 1];
        assert!(size >= 64);
        assert!(size <= 512);
    }
}

#[test]
fn test_low_entropy_detection() {
    // a long run of identical bytes forces an early cut
    let opts = Options::new(64, 256, 512).unwrap();
    let cdc = UltraCDC::with_options(opts).unwrap();
    let data = vec![0xAAu8; 1000];

    let cut = cdc.find_cut_point(&data, data.len());
    assert!(cut < 1000);
}

#[test]
fn test_options_validation() {
    assert!(Options::new(64, 128, 256).is_ok());
    assert!(Options::new(32, 128, 256).is_err()); // min < 64
    assert!(Options::new(200, 128, 256).is_err()); // min >= normal
    assert!(Options::new(64, 128, 100).is_err()); // max <= normal
}

#[test]
fn test_ultracdc_chunk_stream_tiles_input() {
    let cdc = UltraCDC::with_options(Options::new(64, 128, 256).unwrap()).unwrap();
    let data: Vec<u8> = (0..3000).map(|i| (i * 7 % 251) as u8).collect();
    let boundaries = cdc.chunk_stream(&data);
    assert_eq!(*boundaries.last().unwrap(), data.len());
    let mut prev = 0;
    for (i, &b) in boundaries.iter().enumerate() {
        assert!(b > prev);
        assert!(b - prev <= 256);
        if i + 1 < boundaries.len() {
            assert!(b - prev > 64, "non-terminal piece must exceed min_size");
        }
        prev = b;
    }
}

#[test]
fn test_buffer_take() {
    let buf = Buffer::take();
    assert!(buf.data.capacity() >= DEFAULT_BUFFER_SIZE);
}

#[test]
fn test_buffer_extend_and_clear() {
    let mut buf = Buffer::take();
    buf.extend_from_slice(b"hello world");
    assert_eq!(buf.data.len(), 11);

    buf.clear();
    assert!(buf.data.is_empty());
    // Capacity should be preserved
    assert!(buf.data.capacity() >= DEFAULT_BUFFER_SIZE);
}

#[test]
fn test_buffer_reuse() {
    // A buffer handed out after an earlier one was dropped is empty and
    // ready for use.
    {
        let mut buf = Buffer::take();
        buf.extend_from_slice(b"test data");
    }

    let buf2 = Buffer::take();
    assert!(buf2.data.is_empty());
    assert!(buf2.data.capacity() >= DEFAULT_BUFFER_SIZE);
}
