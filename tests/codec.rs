use safe_snappy::native::SnappyStatus;
use safe_snappy::snappy::{check_status, compress, decompress, Error};

fn worst_case(n: usize) -> usize {
    32 + n + n / 6
}

#[test]
fn round_trip_hello_world() {
    let input = b"hello world".to_vec();
    let c = compress(&input).unwrap();
    assert!(!c.is_empty());
    assert_eq!(c[0], 11);
    assert_eq!(decompress(&c).unwrap(), input);
}

#[test]
fn empty_input_compresses_to_header_only() {
    let c = compress(&[]).unwrap();
    assert_eq!(c, vec![0u8]);
    assert_eq!(decompress(&c).unwrap(), Vec::<u8>::new());
}

#[test]
fn round_trip_several_blocks() {
    let mut input = Vec::new();
    for i in 0..200_000u32 {
        input.push((i % 251) as u8 ^ (i / 997) as u8);
    }
    let c = compress(&input).unwrap();
    assert!(c.len() < worst_case(input.len()));
    assert_eq!(decompress(&c).unwrap(), input);
}

#[test]
fn compressed_is_shorter_than_worst_case() {
    for n in [0usize, 1, 5, 17, 100, 4096, 70_000] {
        let input: Vec<u8> = (0..n).map(|i| (i * 7 % 13) as u8).collect();
        let c = compress(&input).unwrap();
        assert!(c.len() < worst_case(n));
    }
}

#[test]
fn repetitive_input_shrinks() {
    let input = vec![0u8; 1000];
    let c = compress(&input).unwrap();
    assert_ne!(c, input);
    assert!(c.len() < 100);
    assert_eq!(decompress(&c).unwrap(), input);
}

#[test]
fn decompressed_length_matches_header() {
    let input = vec![b'a'; 300];
    let c = compress(&input).unwrap();
    // 300 as a varint: 0xAC 0x02.
    assert_eq!(&c[..2], &[0xAC, 0x02]);
    assert_eq!(decompress(&c).unwrap().len(), 300);
}

#[test]
fn decompress_empty_is_invalid() {
    assert_eq!(decompress(&[]), Err(Error::InvalidInput));
}

#[test]
fn decompress_unterminated_header_is_invalid() {
    assert_eq!(decompress(&[0x80]), Err(Error::InvalidInput));
}

#[test]
fn decompress_header_too_long_is_invalid() {
    assert_eq!(decompress(&[0xFF, 0xFF, 0xFF, 0xFF, 0xFF, 0x01]), Err(Error::InvalidInput));
}

#[test]
fn decompress_header_too_large_is_invalid() {
    // Declares 2^32 bytes, one more than the codec allows.
    assert_eq!(decompress(&[0x80, 0x80, 0x80, 0x80, 0x10]), Err(Error::InvalidInput));
}

#[test]
fn decompress_corrupt_body_is_invalid() {
    // Declares 11 bytes, then a copy with nothing before it to copy from.
    assert_eq!(decompress(&[0x0B, 0x01, 0x05]), Err(Error::InvalidInput));
    // Declares 11 bytes but holds a literal of only 2.
    assert_eq!(decompress(&[0x0B, 0x04, b'h', b'i']), Err(Error::InvalidInput));
}

#[test]
fn decompress_random_bytes_never_panics() {
    let mut x: u32 = 12345;
    for _ in 0..200 {
        let mut buf = Vec::new();
        for _ in 0..40 {
            x = x.wrapping_mul(1_103_515_245).wrapping_add(12345);
            buf.push((x >> 16) as u8);
        }
        if let Ok(out) = decompress(&buf) {
            assert_eq!(compress(&out).is_ok(), true);
        }
    }
}

#[test]
fn truncated_frame_is_rejected() {
    let input = b"hello world, hello world, hello world".to_vec();
    let c = compress(&input).unwrap();
    assert_eq!(decompress(&c[..c.len() - 1]), Err(Error::InvalidInput));
}

#[test]
fn status_translation() {
    assert_eq!(check_status(SnappyStatus::Success), Ok(()));
    assert_eq!(check_status(SnappyStatus::InvalidInput), Err(Error::InvalidInput));
    assert_eq!(check_status(SnappyStatus::BufferTooSmall), Err(Error::BufferTooSmall));
    assert_eq!(check_status(SnappyStatus::Unrecognized), Err(Error::Unknown));
}

#[test]
fn error_descriptions() {
    assert_eq!(Error::InvalidInput.description(), "invalid input");
    assert_eq!(Error::BufferTooSmall.description(), "buffer too small");
    assert_eq!(Error::UnexpectedLength.description(), "unexpected length");
    assert_eq!(Error::Unknown.description(), "unknown");
}
