use lz4_frame::BlockMode;
use lz4_frame::BlockSize;
use lz4_frame::Error;
use lz4_frame::FrameInfo;

/// The checksum byte the format demands over a consumed header prefix:
/// the second-least-significant byte of the seed-0 XXH32 digest.
fn checksum_byte(prefix: &[u8]) -> u8 {
    ((twox_hash::XxHash32::oneshot(0, prefix) >> 8) & 0xFF) as u8
}

/// A raw header assembled by hand: the given bytes, then the checksum over
/// exactly those bytes.
fn with_checksum(prefix: &[u8]) -> Vec<u8> {
    let mut v = prefix.to_vec();
    v.push(checksum_byte(prefix));
    v
}

const MAGIC_BYTES: [u8; 4] = [0x04, 0x22, 0x4D, 0x18];

fn all_frame_infos() -> Vec<FrameInfo> {
    let mut infos = Vec::new();
    for &block_size in &[
        BlockSize::Max64KB,
        BlockSize::Max256KB,
        BlockSize::Max1MB,
        BlockSize::Max4MB,
    ] {
        for &block_mode in &[BlockMode::Independent, BlockMode::Linked] {
            for &content_size in &[None, Some(0u64), Some(100), Some(u64::MAX)] {
                for &dict_id in &[None, Some(0u32), Some(0xDEADBEEF), Some(u32::MAX)] {
                    for &block_checksums in &[false, true] {
                        for &content_checksum in &[false, true] {
                            infos.push(FrameInfo {
                                content_size,
                                dict_id,
                                block_size,
                                block_mode,
                                block_checksums,
                                content_checksum,
                            });
                        }
                    }
                }
            }
        }
    }
    infos
}

#[test]
fn frame_round_trip_all_field_combinations() {
    for info in all_frame_infos() {
        let encoded = info.write();
        assert_eq!(FrameInfo::read(&encoded), Ok(info));
    }
}

#[test]
fn encoded_length_matches_declared_fields() {
    for info in all_frame_infos() {
        let mut expected = 7;
        if info.content_size.is_some() {
            expected += 8;
        }
        if info.dict_id.is_some() {
            expected += 4;
        }
        assert_eq!(info.write().len(), expected);
    }
}

#[test]
fn concrete_header_layout() {
    let info = FrameInfo {
        content_size: Some(100),
        dict_id: None,
        block_size: BlockSize::Max64KB,
        block_mode: BlockMode::Independent,
        block_checksums: false,
        content_checksum: true,
    };
    let encoded = info.write();
    assert_eq!(encoded.len(), 15);
    assert_eq!(&encoded[0..4], &MAGIC_BYTES);
    assert_eq!(encoded[4], 0b1110_1100);
    assert_eq!(encoded[5], 0x40);
    assert_eq!(&encoded[6..14], &100u64.to_le_bytes());
    assert_eq!(encoded[14], checksum_byte(&encoded[..14]));
    assert_eq!(FrameInfo::read(&encoded), Ok(info));
}

#[test]
fn required_size_on_magic_only_is_seven() {
    assert_eq!(FrameInfo::required_size(&MAGIC_BYTES), Ok(7));
}

#[test]
fn required_size_below_seven_never_inspects_content() {
    assert_eq!(FrameInfo::required_size(&[]), Ok(7));
    assert_eq!(FrameInfo::required_size(&[0xFF; 6]), Ok(7));
}

#[test]
fn required_size_of_full_header_is_its_length() {
    for info in all_frame_infos() {
        let encoded = info.write();
        assert_eq!(FrameInfo::required_size(&encoded), Ok(encoded.len()));
    }
}

#[test]
fn required_size_of_short_prefix_exceeds_it() {
    for info in all_frame_infos() {
        let encoded = info.write();
        for k in 0..encoded.len() {
            match FrameInfo::required_size(&encoded[..k]) {
                Ok(n) => assert!(n > k),
                Err(e) => panic!("prefix of a valid header was rejected: {:?}", e),
            }
        }
    }
}

#[test]
fn required_size_of_skippable_magic_is_eight() {
    for low_nibble in 0x0..=0xFu8 {
        let buffer = [0x50 + low_nibble, 0x2A, 0x4D, 0x18, 0, 0, 0];
        assert_eq!(FrameInfo::required_size(&buffer), Ok(8));
    }
}

#[test]
fn required_size_rejects_wrong_magic() {
    let buffer = [0x05, 0x22, 0x4D, 0x18, 0, 0, 0];
    assert_eq!(FrameInfo::required_size(&buffer), Err(Error::WrongMagicNumber));
}

#[test]
fn read_detects_skippable_frames_regardless_of_payload() {
    for low_nibble in 0x0..=0xFu8 {
        let mut buffer = vec![0x50 + low_nibble, 0x2A, 0x4D, 0x18];
        buffer.extend_from_slice(&0xCAFEBABEu32.to_le_bytes());
        buffer.extend_from_slice(&[0x5A; 11]);
        assert_eq!(FrameInfo::read(&buffer), Err(Error::SkippableFrame(0xCAFEBABE)));
    }
}

#[test]
fn read_rejects_wrong_magic() {
    let buffer = [0x00, 0x22, 0x4D, 0x18, 0xC0, 0x40, 0x00];
    assert_eq!(FrameInfo::read(&buffer), Err(Error::WrongMagicNumber));
}

#[test]
fn read_rejects_unsupported_version() {
    for version_bits in [0x00u8, 0x40, 0x80] {
        let mut buffer = MAGIC_BYTES.to_vec();
        buffer.push(version_bits | 0x20);
        buffer.push(0x40);
        buffer.push(0x00);
        assert_eq!(FrameInfo::read(&buffer), Err(Error::UnsupportedVersion(version_bits)));
    }
}

#[test]
fn version_mutation_is_detected_before_the_checksum() {
    let encoded = FrameInfo::default().write();
    let mut corrupted = encoded.clone();
    corrupted[4] &= 0x3F;
    assert_eq!(FrameInfo::read(&corrupted), Err(Error::UnsupportedVersion(0)));
}

#[test]
fn corrupted_optional_field_fails_the_checksum() {
    let info = FrameInfo {
        content_size: Some(100),
        dict_id: Some(7),
        block_size: BlockSize::Max1MB,
        block_mode: BlockMode::Linked,
        block_checksums: true,
        content_checksum: true,
    };
    let encoded = info.write();
    let mut corrupted = encoded.clone();
    corrupted[6] ^= 0x01;
    assert_eq!(FrameInfo::read(&corrupted), Err(Error::HeaderChecksumError));
}

#[test]
fn corrupted_checksum_byte_is_detected() {
    let mut encoded = FrameInfo::default().write();
    let last = encoded.len() - 1;
    encoded[last] ^= 0xFF;
    assert_eq!(FrameInfo::read(&encoded), Err(Error::HeaderChecksumError));
}

#[test]
fn all_eight_block_descriptor_codes() {
    // Reserved codes fail before the checksum is read.
    for code in 0u8..=3 {
        let buffer = [0x04, 0x22, 0x4D, 0x18, 0xC0, code << 4];
        assert_eq!(FrameInfo::read(&buffer), Err(Error::UnimplementedBlocksize(code)));
    }
    let sizes = [
        BlockSize::Max64KB,
        BlockSize::Max256KB,
        BlockSize::Max1MB,
        BlockSize::Max4MB,
    ];
    for code in 4u8..=7 {
        let mut prefix = MAGIC_BYTES.to_vec();
        prefix.push(0xC0);
        prefix.push(code << 4);
        let header = with_checksum(&prefix);
        let decoded = FrameInfo::read(&header).unwrap();
        assert_eq!(decoded.block_size, sizes[(code - 4) as usize]);
    }
}

#[test]
fn block_size_code_is_taken_from_bits_six_to_four_only() {
    // Reserved bits of the block-descriptor byte do not disturb the code,
    // as long as the checksum still covers the byte as written.
    let mut prefix = MAGIC_BYTES.to_vec();
    prefix.push(0xC0);
    prefix.push(0b1100_1111);
    let header = with_checksum(&prefix);
    let decoded = FrameInfo::read(&header).unwrap();
    assert_eq!(decoded.block_size, BlockSize::Max64KB);
}

#[test]
fn read_rejects_truncated_input() {
    assert_eq!(FrameInfo::read(&[]), Err(Error::TruncatedInput));
    assert_eq!(FrameInfo::read(&MAGIC_BYTES[..3]), Err(Error::TruncatedInput));
    assert_eq!(FrameInfo::read(&[0x50, 0x2A, 0x4D, 0x18, 0x01]), Err(Error::TruncatedInput));
    let info = FrameInfo {
        content_size: Some(1),
        dict_id: None,
        block_size: BlockSize::Max64KB,
        block_mode: BlockMode::Independent,
        block_checksums: false,
        content_checksum: false,
    };
    let encoded = info.write();
    assert_eq!(FrameInfo::read(&encoded[..7]), Err(Error::TruncatedInput));
}

#[test]
fn decoded_flags_follow_the_flag_byte() {
    let info = FrameInfo {
        content_size: None,
        dict_id: Some(42),
        block_size: BlockSize::Max4MB,
        block_mode: BlockMode::Linked,
        block_checksums: true,
        content_checksum: false,
    };
    let encoded = info.write();
    assert_eq!(encoded[4], 0b1101_0001);
    assert_eq!(encoded[5], 0b0111_0000);
    assert_eq!(&encoded[6..10], &42u32.to_le_bytes());
    assert_eq!(FrameInfo::read(&encoded), Ok(info));
}

#[test]
fn block_size_get_size_values() {
    assert_eq!(BlockSize::Max64KB.get_size(), 64 * 1024);
    assert_eq!(BlockSize::Max256KB.get_size(), 256 * 1024);
    assert_eq!(BlockSize::Max1MB.get_size(), 1024 * 1024);
    assert_eq!(BlockSize::Max4MB.get_size(), 4 * 1024 * 1024);
}

#[test]
fn default_frame_info_declares_nothing_optional() {
    let d = FrameInfo::default();
    assert_eq!(d.content_size, None);
    assert_eq!(d.dict_id, None);
    assert_eq!(d.block_size, BlockSize::Max64KB);
    assert_eq!(d.block_mode, BlockMode::Independent);
    assert!(!d.block_checksums);
    assert!(!d.content_checksum);
}
