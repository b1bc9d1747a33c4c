//! The block header codec: the 4-byte size record that precedes every
//! block's payload.

use vstd::bytes::spec_u32_from_le_bytes;
use vstd::bytes::spec_u32_to_le_bytes;
use vstd::bytes::u32_from_le_bytes;
use vstd::bytes::u32_to_le_bytes;
use vstd::prelude::*;
use vstd::slice::slice_subrange;

use crate::error::Error;

verus! {

/// Size-record bit that marks a block's payload as stored verbatim rather
/// than compressed.
pub const UNCOMPRESSED_FLAG: u32 = 0x8000_0000;

/// The largest payload byte count one block record can express: the low
/// 31 bits of the record.
pub const MAX_BLOCK_PAYLOAD: u32 = 0x7FFF_FFFF;

/// The decoded 4-byte size record of one block. Produced fresh for each
/// block header read; never retained.
#[derive(Debug, Clone, Copy, PartialEq, Eq, Structural)]
pub enum BlockInfo {
    /// The next `size` payload bytes are compressed.
    Compressed(usize),
    /// The next `size` payload bytes are stored verbatim (the record's high
    /// bit was set).
    Uncompressed(usize),
    /// The all-zero record: end of the frame's block sequence.
    EndMark,
}

impl BlockInfo {
    /// Whether the record can be written at all: a size is always the low
    /// 31 bits of the record, so a larger one is a caller error to reject
    /// before encoding.
    pub open spec fn spec_valid(self) -> bool {
        match self {
            BlockInfo::Compressed(size) => size <= MAX_BLOCK_PAYLOAD,
            BlockInfo::Uncompressed(size) => size <= MAX_BLOCK_PAYLOAD,
            BlockInfo::EndMark => true,
        }
    }

    /// The 32-bit word a record is written as: zero for the end marker, the
    /// size with the high bit set for a stored block, the size verbatim for
    /// a compressed block.
    pub open spec fn spec_word(self) -> u32
        recommends
            self.spec_valid(),
    {
        match self {
            BlockInfo::Compressed(size) => size as u32,
            BlockInfo::Uncompressed(size) => (size as u32) | UNCOMPRESSED_FLAG,
            BlockInfo::EndMark => 0,
        }
    }
}

/// The 4-byte encoding of a block record.
pub open spec fn spec_block_encode(info: BlockInfo) -> Seq<u8>
    recommends
        info.spec_valid(),
{
    spec_u32_to_le_bytes(info.spec_word())
}

/// What decoding a block record returns on any byte sequence: the zero word
/// is the end marker, a set high bit marks a stored block, anything else is
/// a compressed block.
pub open spec fn spec_block_read(s: Seq<u8>) -> Result<BlockInfo, Error> {
    if s.len() < 4 {
        Err(Error::TruncatedInput)
    } else {
        let word = spec_u32_from_le_bytes(s.subrange(0, 4));
        if word == 0 {
            Ok(BlockInfo::EndMark)
        } else if word & UNCOMPRESSED_FLAG != 0 {
            Ok(BlockInfo::Uncompressed((word & MAX_BLOCK_PAYLOAD) as usize))
        } else {
            Ok(BlockInfo::Compressed(word as usize))
        }
    }
}

impl BlockInfo {
    /// Decode the 4-byte size record at the start of `input`.
    pub fn read(input: &[u8]) -> (r: Result<BlockInfo, Error>)
        ensures
            r == spec_block_read(input@),
    {
        if input.len() < 4 {
            return Err(Error::TruncatedInput);
        }
        let word = u32_from_le_bytes(slice_subrange(input, 0, 4));
        if word == 0 {
            Ok(BlockInfo::EndMark)
        } else if word & UNCOMPRESSED_FLAG != 0 {
            Ok(BlockInfo::Uncompressed((word & MAX_BLOCK_PAYLOAD) as usize))
        } else {
            Ok(BlockInfo::Compressed(word as usize))
        }
    }

    /// Encode this record as its 4-byte little-endian word.
    pub fn write(&self) -> (r: Vec<u8>)
        requires
            self.spec_valid(),
        ensures
            r@ == spec_block_encode(*self),
    {
        let word: u32 = match self {
            BlockInfo::Compressed(size) => *size as u32,
            BlockInfo::Uncompressed(size) => (*size as u32) | UNCOMPRESSED_FLAG,
            BlockInfo::EndMark => 0,
        };
        u32_to_le_bytes(word)
    }
}

} // verus!
