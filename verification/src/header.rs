//! The frame descriptor codec: decode, encode, and size estimation for the
//! variable-length frame header.

use vstd::bytes::spec_u32_from_le_bytes;
use vstd::bytes::spec_u32_to_le_bytes;
use vstd::bytes::spec_u64_from_le_bytes;
use vstd::bytes::spec_u64_to_le_bytes;
use vstd::bytes::u32_from_le_bytes;
use vstd::bytes::u32_to_le_bytes;
use vstd::bytes::u64_from_le_bytes;
use vstd::bytes::u64_to_le_bytes;
use vstd::prelude::*;
use vstd::slice::slice_index_get;
use vstd::slice::slice_subrange;

use crate::error::Error;
use crate::hash::xxh32;
use crate::hash::xxh32_digest;

verus! {

/// The magic number that opens every standard frame (stored little-endian).
pub const MAGIC_NUMBER: u32 = 0x184D2204;

/// Lowest magic number of the reserved skippable-chunk range.
pub const SKIPPABLE_MAGIC_LOW: u32 = 0x184D2A50;

/// Highest magic number of the reserved skippable-chunk range.
pub const SKIPPABLE_MAGIC_HIGH: u32 = 0x184D2A5F;

/// Flag-byte mask of the two version bits.
pub const FLAG_VERSION_MASK: u8 = 0xC0;

/// The single version tag this codec supports, already in place under
/// `FLAG_VERSION_MASK`.
pub const FLAG_SUPPORTED_VERSION: u8 = 0xC0;

/// Flag-byte bit: blocks are compressed independently of one another.
pub const FLAG_INDEPENDENT_BLOCKS: u8 = 0x20;

/// Flag-byte bit: each block payload carries its own checksum.
pub const FLAG_BLOCK_CHECKSUMS: u8 = 0x10;

/// Flag-byte bit: the header carries an 8-byte content size.
pub const FLAG_CONTENT_SIZE: u8 = 0x08;

/// Flag-byte bit: the frame ends with a checksum over all content.
pub const FLAG_CONTENT_CHECKSUM: u8 = 0x04;

/// Flag-byte bit: the header carries a 4-byte dictionary id.
pub const FLAG_DICTIONARY_ID: u8 = 0x01;

/// Block-descriptor mask of the 3-bit block-size code (bits 6-4).
pub const BLOCK_SIZE_MASK: u8 = 0x70;

/// The maximum uncompressed payload size of one block, one of the four
/// values the block-descriptor byte can encode.
#[derive(Debug, Clone, Copy, PartialEq, Eq, Structural)]
pub enum BlockSize {
    Max64KB,
    Max256KB,
    Max1MB,
    Max4MB,
}

/// Whether a block's compression may reference bytes of earlier blocks
/// (`Linked`) or must be self-contained (`Independent`).
#[derive(Debug, Clone, Copy, PartialEq, Eq, Structural)]
pub enum BlockMode {
    Independent,
    Linked,
}

impl BlockSize {
    /// The 3-bit code this size is written as in the block-descriptor byte.
    pub open spec fn spec_code(self) -> u8 {
        match self {
            BlockSize::Max64KB => 4,
            BlockSize::Max256KB => 5,
            BlockSize::Max1MB => 6,
            BlockSize::Max4MB => 7,
        }
    }

    /// The byte count this size denotes.
    pub open spec fn spec_size(self) -> usize {
        match self {
            BlockSize::Max64KB => 65536,
            BlockSize::Max256KB => 262144,
            BlockSize::Max1MB => 1048576,
            BlockSize::Max4MB => 4194304,
        }
    }

    /// The byte count this size denotes, used by callers to size payload
    /// buffers; this codec never allocates such a buffer itself.
    pub fn get_size(&self) -> (r: usize)
        ensures
            r == self.spec_size(),
    {
        match self {
            BlockSize::Max64KB => 64 * 1024,
            BlockSize::Max256KB => 256 * 1024,
            BlockSize::Max1MB => 1024 * 1024,
            BlockSize::Max4MB => 4 * 1024 * 1024,
        }
    }
}

/// The decoded frame descriptor. A value is produced once per frame by
/// `read`, or built explicitly for `write`; it is never mutated afterward.
#[derive(Debug, Clone, Copy, PartialEq)]
pub struct FrameInfo {
    /// Exact uncompressed byte count of the whole frame, if declared.
    pub content_size: Option<u64>,
    /// Identifier of an external dictionary, if one is referenced.
    pub dict_id: Option<u32>,
    /// Maximum uncompressed payload size of any block of the frame.
    pub block_size: BlockSize,
    /// Whether blocks may reference data from prior blocks.
    pub block_mode: BlockMode,
    /// Whether each block payload carries its own checksum.
    pub block_checksums: bool,
    /// Whether the frame carries a trailing checksum over all content.
    pub content_checksum: bool,
}

impl Default for FrameInfo {
    /// The smallest self-contained descriptor: no optional fields, 64 KiB
    /// independent blocks, no checksums beyond the mandatory header byte.
    fn default() -> (d: Self)
        ensures
            d.content_size is None,
            d.dict_id is None,
            d.block_size == BlockSize::Max64KB,
            d.block_mode == BlockMode::Independent,
            !d.block_checksums,
            !d.content_checksum,
    {
        FrameInfo {
            content_size: None,
            dict_id: None,
            block_size: BlockSize::Max64KB,
            block_mode: BlockMode::Independent,
            block_checksums: false,
            content_checksum: false,
        }
    }
}

/// Whether a magic number selects the reserved skippable-chunk range.
pub open spec fn spec_is_skippable(magic: u32) -> bool {
    SKIPPABLE_MAGIC_LOW <= magic && magic <= SKIPPABLE_MAGIC_HIGH
}

/// The flag byte a descriptor is written with: version tag plus one bit per
/// declared feature.
pub open spec fn spec_flag_byte(info: FrameInfo) -> u8 {
    FLAG_SUPPORTED_VERSION | (match info.block_mode {
        BlockMode::Independent => FLAG_INDEPENDENT_BLOCKS,
        BlockMode::Linked => 0,
    }) | (if info.block_checksums {
        FLAG_BLOCK_CHECKSUMS
    } else {
        0
    }) | (if info.content_size is Some {
        FLAG_CONTENT_SIZE
    } else {
        0
    }) | (if info.content_checksum {
        FLAG_CONTENT_CHECKSUM
    } else {
        0
    }) | (if info.dict_id is Some {
        FLAG_DICTIONARY_ID
    } else {
        0
    })
}

/// The block-descriptor byte: the 3-bit block-size code in bits 6-4, all
/// reserved bits zero.
pub open spec fn spec_bd_byte(info: FrameInfo) -> u8 {
    info.block_size.spec_code() << 4
}

/// Total header length implied by a flag byte: magic (4) + flag (1) +
/// block descriptor (1) + checksum (1), plus the optional content size (8)
/// and dictionary id (4) when their bits are set.
pub open spec fn spec_header_len(flag_byte: u8) -> int {
    7 + (if flag_byte & FLAG_CONTENT_SIZE != 0 {
        8int
    } else {
        0int
    }) + (if flag_byte & FLAG_DICTIONARY_ID != 0 {
        4int
    } else {
        0int
    })
}

/// Every header byte of a descriptor except the final checksum byte: the
/// exact range the header checksum is computed over.
pub open spec fn spec_header_prefix(info: FrameInfo) -> Seq<u8> {
    spec_u32_to_le_bytes(MAGIC_NUMBER) + seq![spec_flag_byte(info), spec_bd_byte(info)] + (
    match info.content_size {
        Some(cs) => spec_u64_to_le_bytes(cs),
        None => Seq::empty(),
    }) + (match info.dict_id {
        Some(id) => spec_u32_to_le_bytes(id),
        None => Seq::empty(),
    })
}

/// The one-byte header checksum of a consumed prefix: the second-least-
/// significant byte of the seed-0 XXH32 digest over exactly those bytes.
pub open spec fn spec_checksum_byte(prefix: Seq<u8>) -> u8 {
    ((xxh32(0, prefix) >> 8) & 0xFF) as u8
}

/// The complete encoding of a frame descriptor.
pub open spec fn spec_encode(info: FrameInfo) -> Seq<u8> {
    spec_header_prefix(info).push(spec_checksum_byte(spec_header_prefix(info)))
}

/// What a full decode returns on any byte sequence, field checks applied in
/// the order the bytes are consumed: magic, then the skippable range, then
/// version, then the block-size code, then length, then the checksum.
pub open spec fn spec_read(s: Seq<u8>) -> Result<FrameInfo, Error> {
    if s.len() < 4 {
        Err(Error::TruncatedInput)
    } else {
        let magic = spec_u32_from_le_bytes(s.subrange(0, 4));
        if spec_is_skippable(magic) {
            if s.len() < 8 {
                Err(Error::TruncatedInput)
            } else {
                Err(Error::SkippableFrame(spec_u32_from_le_bytes(s.subrange(4, 8))))
            }
        } else if magic != MAGIC_NUMBER {
            Err(Error::WrongMagicNumber)
        } else if s.len() < 6 {
            Err(Error::TruncatedInput)
        } else {
            let flag_byte = s[4];
            let bd_byte = s[5];
            if flag_byte & FLAG_VERSION_MASK != FLAG_SUPPORTED_VERSION {
                Err(Error::UnsupportedVersion(flag_byte & FLAG_VERSION_MASK))
            } else {
                let code = (bd_byte & BLOCK_SIZE_MASK) >> 4;
                if code < 4 {
                    Err(Error::UnimplementedBlocksize(code))
                } else {
                    let total = spec_header_len(flag_byte);
                    if s.len() < total {
                        Err(Error::TruncatedInput)
                    } else {
                        let declared = s[total - 1];
                        let computed = spec_checksum_byte(s.subrange(0, total - 1));
                        if computed != declared {
                            Err(Error::HeaderChecksumError)
                        } else {
                            Ok(spec_fields(s, flag_byte, code))
                        }
                    }
                }
            }
        }
    }
}

/// The descriptor assembled from a byte sequence whose magic, version,
/// block-size code, length and checksum have all been accepted.
pub open spec fn spec_fields(s: Seq<u8>, flag_byte: u8, code: u8) -> FrameInfo {
    FrameInfo {
        content_size: if flag_byte & FLAG_CONTENT_SIZE != 0 {
            Some(spec_u64_from_le_bytes(s.subrange(6, 14)))
        } else {
            None
        },
        dict_id: if flag_byte & FLAG_DICTIONARY_ID != 0 {
            Some(
                spec_u32_from_le_bytes(
                    s.subrange(spec_dict_id_offset(flag_byte), spec_dict_id_offset(flag_byte) + 4),
                ),
            )
        } else {
            None
        },
        block_size: spec_block_size_of_code(code),
        block_mode: if flag_byte & FLAG_INDEPENDENT_BLOCKS != 0 {
            BlockMode::Independent
        } else {
            BlockMode::Linked
        },
        block_checksums: flag_byte & FLAG_BLOCK_CHECKSUMS != 0,
        content_checksum: flag_byte & FLAG_CONTENT_CHECKSUM != 0,
    }
}

/// Where the dictionary id starts: right after the fixed six bytes and the
/// content size, if the flag byte declares one.
pub open spec fn spec_dict_id_offset(flag_byte: u8) -> int {
    6 + (if flag_byte & FLAG_CONTENT_SIZE != 0 {
        8int
    } else {
        0int
    })
}

/// The block size a non-reserved 3-bit code denotes.
pub open spec fn spec_block_size_of_code(code: u8) -> BlockSize
    recommends
        4 <= code <= 7,
{
    if code == 4 {
        BlockSize::Max64KB
    } else if code == 5 {
        BlockSize::Max256KB
    } else if code == 6 {
        BlockSize::Max1MB
    } else {
        BlockSize::Max4MB
    }
}

/// What the size estimator returns on any byte sequence: a byte count the
/// caller must have before a full decode attempt, or the one error that no
/// amount of further bytes can repair.
pub open spec fn spec_required_size(s: Seq<u8>) -> Result<usize, Error> {
    if s.len() < 7 {
        Ok(7usize)
    } else {
        let magic = spec_u32_from_le_bytes(s.subrange(0, 4));
        if spec_is_skippable(magic) {
            Ok(8usize)
        } else if magic != MAGIC_NUMBER {
            Err(Error::WrongMagicNumber)
        } else {
            Ok(spec_header_len(s[4]) as usize)
        }
    }
}

impl FrameInfo {
    /// How many bytes the caller must supply before a full decode attempt
    /// can be made on this buffer. Below seven bytes nothing is inspected
    /// and the smallest possible header length is asked for; a skippable
    /// magic asks for its fixed eight-byte chunk header; otherwise the flag
    /// byte settles which optional fields the header carries.
    pub fn required_size(input: &[u8]) -> (r: Result<usize, Error>)
        ensures
            r == spec_required_size(input@),
    {
        if input.len() < 7 {
            return Ok(7);
        }
        let magic = u32_from_le_bytes(slice_subrange(input, 0, 4));
        if SKIPPABLE_MAGIC_LOW <= magic && magic <= SKIPPABLE_MAGIC_HIGH {
            return Ok(8);
        }
        if magic != MAGIC_NUMBER {
            return Err(Error::WrongMagicNumber);
        }
        let flag_byte = *slice_index_get(input, 4);
        let mut required: usize = 7;
        if flag_byte & FLAG_CONTENT_SIZE != 0 {
            required += 8;
        }
        if flag_byte & FLAG_DICTIONARY_ID != 0 {
            required += 4;
        }
        Ok(required)
    }

    /// Full header decode. The buffer is checked in the order its bytes are
    /// consumed: magic number, the skippable range, version bits, the
    /// block-size code, the overall length, and finally the one-byte
    /// checksum over every consumed byte before the checksum itself.
    pub fn read(input: &[u8]) -> (r: Result<FrameInfo, Error>)
        ensures
            r == spec_read(input@),
    {
        if input.len() < 4 {
            return Err(Error::TruncatedInput);
        }
        let magic = u32_from_le_bytes(slice_subrange(input, 0, 4));
        if SKIPPABLE_MAGIC_LOW <= magic && magic <= SKIPPABLE_MAGIC_HIGH {
            if input.len() < 8 {
                return Err(Error::TruncatedInput);
            }
            let user_data_len = u32_from_le_bytes(slice_subrange(input, 4, 8));
            return Err(Error::SkippableFrame(user_data_len));
        }
        if magic != MAGIC_NUMBER {
            return Err(Error::WrongMagicNumber);
        }
        if input.len() < 6 {
            return Err(Error::TruncatedInput);
        }
        let flag_byte = *slice_index_get(input, 4);
        let bd_byte = *slice_index_get(input, 5);
        if flag_byte & FLAG_VERSION_MASK != FLAG_SUPPORTED_VERSION {
            return Err(Error::UnsupportedVersion(flag_byte & FLAG_VERSION_MASK));
        }
        let code = (bd_byte & BLOCK_SIZE_MASK) >> 4;
        if code < 4 {
            return Err(Error::UnimplementedBlocksize(code));
        }
        let mut total: usize = 7;
        if flag_byte & FLAG_CONTENT_SIZE != 0 {
            total += 8;
        }
        if flag_byte & FLAG_DICTIONARY_ID != 0 {
            total += 4;
        }
        if input.len() < total {
            return Err(Error::TruncatedInput);
        }
        let content_size = if flag_byte & FLAG_CONTENT_SIZE != 0 {
            Some(u64_from_le_bytes(slice_subrange(input, 6, 14)))
        } else {
            None
        };
        let dict_offset: usize = if flag_byte & FLAG_CONTENT_SIZE != 0 {
            14
        } else {
            6
        };
        let dict_id = if flag_byte & FLAG_DICTIONARY_ID != 0 {
            Some(u32_from_le_bytes(slice_subrange(input, dict_offset, dict_offset + 4)))
        } else {
            None
        };
        let declared = *slice_index_get(input, total - 1);
        let digest = xxh32_digest(0, slice_subrange(input, 0, total - 1));
        proof {
            assert((digest >> 8) & 0xFF < 256) by (bit_vector);
        }
        let computed = ((digest >> 8) & 0xFF) as u8;
        if computed != declared {
            return Err(Error::HeaderChecksumError);
        }
        let block_size = if code == 4 {
            BlockSize::Max64KB
        } else if code == 5 {
            BlockSize::Max256KB
        } else if code == 6 {
            BlockSize::Max1MB
        } else {
            BlockSize::Max4MB
        };
        let block_mode = if flag_byte & FLAG_INDEPENDENT_BLOCKS != 0 {
            BlockMode::Independent
        } else {
            BlockMode::Linked
        };
        Ok(
            FrameInfo {
                content_size,
                dict_id,
                block_size,
                block_mode,
                block_checksums: flag_byte & FLAG_BLOCK_CHECKSUMS != 0,
                content_checksum: flag_byte & FLAG_CONTENT_CHECKSUM != 0,
            },
        )
    }

    /// Serialize this descriptor into the exact layout `read` accepts:
    /// magic number, flag byte, block-descriptor byte, the optional fields
    /// the flags declare, and the checksum over everything written so far.
    pub fn write(&self) -> (r: Vec<u8>)
        ensures
            r@ == spec_encode(*self),
    {
        let mode_bit: u8 = match self.block_mode {
            BlockMode::Independent => FLAG_INDEPENDENT_BLOCKS,
            BlockMode::Linked => 0,
        };
        let bc_bit: u8 = if self.block_checksums {
            FLAG_BLOCK_CHECKSUMS
        } else {
            0
        };
        let cs_bit: u8 = if self.content_size.is_some() {
            FLAG_CONTENT_SIZE
        } else {
            0
        };
        let cc_bit: u8 = if self.content_checksum {
            FLAG_CONTENT_CHECKSUM
        } else {
            0
        };
        let di_bit: u8 = if self.dict_id.is_some() {
            FLAG_DICTIONARY_ID
        } else {
            0
        };
        let flag_byte: u8 = FLAG_SUPPORTED_VERSION | mode_bit | bc_bit | cs_bit | cc_bit | di_bit;
        let code: u8 = match self.block_size {
            BlockSize::Max64KB => 4,
            BlockSize::Max256KB => 5,
            BlockSize::Max1MB => 6,
            BlockSize::Max4MB => 7,
        };
        let bd_byte: u8 = code << 4;
        let mut out: Vec<u8> = u32_to_le_bytes(MAGIC_NUMBER);
        out.push(flag_byte);
        out.push(bd_byte);
        if let Some(cs) = self.content_size {
            let mut cs_bytes = u64_to_le_bytes(cs);
            out.append(&mut cs_bytes);
        }
        if let Some(id) = self.dict_id {
            let mut id_bytes = u32_to_le_bytes(id);
            out.append(&mut id_bytes);
        }
        proof {
            assert(out@ =~= spec_header_prefix(*self));
        }
        let digest = xxh32_digest(0, out.as_slice());
        proof {
            assert((digest >> 8) & 0xFF < 256) by (bit_vector);
        }
        out.push(((digest >> 8) & 0xFF) as u8);
        out
    }
}

} // verus!
