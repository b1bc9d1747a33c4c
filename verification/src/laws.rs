//! The guarantees that relate the codec's operations to one another:
//! round trips, size estimation against real encodings, and detection of
//! the format's control and error cases.

use vstd::bytes::lemma_auto_spec_u32_to_from_le_bytes;
use vstd::bytes::lemma_auto_spec_u64_to_from_le_bytes;
use vstd::bytes::spec_u32_from_le_bytes;
use vstd::bytes::spec_u32_to_le_bytes;
use vstd::bytes::spec_u64_to_le_bytes;
use vstd::prelude::*;

use crate::block::spec_block_encode;
use crate::block::spec_block_read;
use crate::block::BlockInfo;
use crate::block::MAX_BLOCK_PAYLOAD;
use crate::error::Error;
use crate::header::spec_bd_byte;
use crate::header::spec_checksum_byte;
use crate::header::spec_dict_id_offset;
use crate::header::spec_encode;
use crate::header::spec_fields;
use crate::header::spec_flag_byte;
use crate::header::spec_header_len;
use crate::header::spec_header_prefix;
use crate::header::spec_is_skippable;
use crate::header::spec_read;
use crate::header::spec_required_size;
use crate::header::BlockMode;
use crate::header::FrameInfo;
use crate::header::BLOCK_SIZE_MASK;
use crate::header::FLAG_SUPPORTED_VERSION;
use crate::header::FLAG_VERSION_MASK;
use crate::header::MAGIC_NUMBER;

verus! {

broadcast use vstd::seq::group_seq_axioms;

/// Each feature bit of an assembled flag byte can be read back on its own,
/// and the version bits always carry the supported tag.
proof fn lemma_flag_bits(f: u8, m: u8, bc: u8, cs: u8, cc: u8, di: u8)
    by (bit_vector)
    requires
        f == 0xC0u8 | m | bc | cs | cc | di,
        m == 0x20 || m == 0,
        bc == 0x10 || bc == 0,
        cs == 0x08 || cs == 0,
        cc == 0x04 || cc == 0,
        di == 0x01 || di == 0,
    ensures
        f & 0xC0 == 0xC0,
        (f & 0x20 != 0) <==> m == 0x20,
        (f & 0x10 != 0) <==> bc == 0x10,
        (f & 0x08 != 0) <==> cs == 0x08,
        (f & 0x04 != 0) <==> cc == 0x04,
        (f & 0x01 != 0) <==> di == 0x01,
{
}

/// A block-size code written into bits 6-4 of the block-descriptor byte is
/// read back unchanged.
proof fn lemma_bd_code(c: u8)
    by (bit_vector)
    requires
        4 <= c && c <= 7,
    ensures
        ((c << 4) & 0x70) >> 4 == c,
{
}

/// Everything the other laws need to know about where each part of an
/// encoded header lies: its length, the bytes of each field, and how the
/// flag byte answers each feature test.
proof fn lemma_encode_shape(info: FrameInfo)
    ensures
        spec_encode(info).len() == spec_header_len(spec_flag_byte(info)),
        7 <= spec_encode(info).len() <= 19,
        spec_encode(info).subrange(0, 4) == spec_u32_to_le_bytes(MAGIC_NUMBER),
        spec_encode(info)[4] == spec_flag_byte(info),
        spec_encode(info)[5] == spec_bd_byte(info),
        spec_encode(info).subrange(0, spec_encode(info).len() - 1) == spec_header_prefix(info),
        spec_encode(info)[spec_encode(info).len() - 1] == spec_checksum_byte(
            spec_header_prefix(info),
        ),
        spec_flag_byte(info) & FLAG_VERSION_MASK == FLAG_SUPPORTED_VERSION,
        (spec_flag_byte(info) & 0x20 != 0) <==> info.block_mode == BlockMode::Independent,
        (spec_flag_byte(info) & 0x10 != 0) <==> info.block_checksums,
        (spec_flag_byte(info) & 0x08 != 0) <==> info.content_size is Some,
        (spec_flag_byte(info) & 0x04 != 0) <==> info.content_checksum,
        (spec_flag_byte(info) & 0x01 != 0) <==> info.dict_id is Some,
        info.content_size is Some ==> spec_encode(info).subrange(6, 14) == spec_u64_to_le_bytes(
            info.content_size->Some_0,
        ),
        info.dict_id is Some ==> spec_encode(info).subrange(
            spec_dict_id_offset(spec_flag_byte(info)),
            spec_dict_id_offset(spec_flag_byte(info)) + 4,
        ) == spec_u32_to_le_bytes(info.dict_id->Some_0),
{
    lemma_auto_spec_u32_to_from_le_bytes();
    lemma_auto_spec_u64_to_from_le_bytes();
    let f = spec_flag_byte(info);
    let m: u8 = if info.block_mode == BlockMode::Independent {
        0x20
    } else {
        0
    };
    let bc: u8 = if info.block_checksums {
        0x10
    } else {
        0
    };
    let cs: u8 = if info.content_size is Some {
        0x08
    } else {
        0
    };
    let cc: u8 = if info.content_checksum {
        0x04
    } else {
        0
    };
    let di: u8 = if info.dict_id is Some {
        0x01
    } else {
        0
    };
    assert(f == 0xC0u8 | m | bc | cs | cc | di);
    lemma_flag_bits(f, m, bc, cs, cc, di);
    let p = spec_header_prefix(info);
    assert(p.len() == spec_header_len(f) - 1);
    assert(spec_encode(info).subrange(0, 4) =~= spec_u32_to_le_bytes(MAGIC_NUMBER));
    assert(spec_encode(info).subrange(0, spec_encode(info).len() - 1) =~= p);
    if info.content_size is Some {
        assert(spec_encode(info).subrange(6, 14) =~= spec_u64_to_le_bytes(
            info.content_size->Some_0,
        ));
    }
    if info.dict_id is Some {
        assert(spec_encode(info).subrange(
            spec_dict_id_offset(f),
            spec_dict_id_offset(f) + 4,
        ) =~= spec_u32_to_le_bytes(info.dict_id->Some_0));
    }
}

/// Decoding the encoding of any frame descriptor reproduces it exactly:
/// every combination of block size, block mode, checksum flags and optional
/// fields survives the round trip.
pub proof fn lemma_frame_round_trip(info: FrameInfo)
    ensures
        spec_read(spec_encode(info)) == Ok::<FrameInfo, Error>(info),
{
    lemma_auto_spec_u32_to_from_le_bytes();
    lemma_auto_spec_u64_to_from_le_bytes();
    lemma_encode_shape(info);
    let s = spec_encode(info);
    let f = spec_flag_byte(info);
    let p = spec_header_prefix(info);
    assert(spec_u32_from_le_bytes(s.subrange(0, 4)) == MAGIC_NUMBER);
    assert(!spec_is_skippable(MAGIC_NUMBER));
    let c = info.block_size.spec_code();
    assert(4 <= c && c <= 7);
    lemma_bd_code(c);
    assert((spec_bd_byte(info) & BLOCK_SIZE_MASK) >> 4 == c);
    assert(s.len() == spec_header_len(f));
    assert(spec_checksum_byte(s.subrange(0, spec_header_len(f) - 1)) == s[spec_header_len(f) - 1]);
    let decoded = spec_fields(s, f, c);
    if info.content_size is Some {
        assert(decoded.content_size == info.content_size);
    }
    if info.dict_id is Some {
        assert(decoded.dict_id == info.dict_id);
    }
    assert(decoded.block_size == info.block_size);
    assert(decoded == info);
}

/// On a complete encoded header the size estimator answers exactly the
/// header's true byte length; on any shorter prefix it answers a count
/// larger than what is available, so a caller that waits for the estimate
/// never attempts a decode on a short buffer.
pub proof fn lemma_required_size_of_encoding(info: FrameInfo)
    ensures
        spec_required_size(spec_encode(info)) == Ok::<usize, Error>(
            spec_encode(info).len() as usize,
        ),
{
    lemma_auto_spec_u32_to_from_le_bytes();
    lemma_encode_shape(info);
    let s = spec_encode(info);
    assert(spec_u32_from_le_bytes(s.subrange(0, 4)) == MAGIC_NUMBER);
    assert(!spec_is_skippable(MAGIC_NUMBER));
}

/// On every strict prefix of an encoded header the size estimator asks for
/// more bytes than the prefix holds: seven below seven bytes, the full
/// header length once the flag byte is visible.
pub proof fn lemma_required_size_of_prefix(info: FrameInfo, k: int)
    requires
        0 <= k < spec_encode(info).len(),
    ensures
        spec_required_size(spec_encode(info).subrange(0, k)) == Ok::<usize, Error>(
            (if k < 7 {
                7int
            } else {
                spec_encode(info).len() as int
            }) as usize,
        ),
        spec_required_size(spec_encode(info).subrange(0, k)) matches Ok(n) && n > k,
{
    lemma_auto_spec_u32_to_from_le_bytes();
    lemma_encode_shape(info);
    let s = spec_encode(info);
    let t = s.subrange(0, k);
    if k >= 7 {
        assert(t.subrange(0, 4) =~= s.subrange(0, 4));
        assert(t[4] == s[4]);
        assert(spec_u32_from_le_bytes(t.subrange(0, 4)) == MAGIC_NUMBER);
        assert(!spec_is_skippable(MAGIC_NUMBER));
    }
}

/// Overwriting the flag byte of an encoded header with any byte whose
/// version bits differ from the supported tag makes decoding fail with
/// `UnsupportedVersion` carrying those bits: the mutation is caught before
/// the checksum is even consulted.
pub proof fn lemma_version_mutation_detected(info: FrameInfo, b: u8)
    requires
        b & FLAG_VERSION_MASK != FLAG_SUPPORTED_VERSION,
    ensures
        spec_read(spec_encode(info).update(4, b)) == Err::<FrameInfo, Error>(
            Error::UnsupportedVersion(b & FLAG_VERSION_MASK),
        ),
{
    lemma_auto_spec_u32_to_from_le_bytes();
    lemma_encode_shape(info);
    let s = spec_encode(info);
    let u = s.update(4, b);
    assert(u.subrange(0, 4) =~= s.subrange(0, 4));
    assert(spec_u32_from_le_bytes(u.subrange(0, 4)) == MAGIC_NUMBER);
    assert(!spec_is_skippable(MAGIC_NUMBER));
    assert(u[4] == b);
}

/// A buffer that opens with a magic number of the reserved skippable range
/// and carries the full eight-byte chunk header is always reported as a
/// skippable chunk of the length its second word declares, whatever bytes
/// follow.
pub proof fn lemma_skippable_detected(s: Seq<u8>)
    requires
        s.len() >= 8,
        spec_is_skippable(spec_u32_from_le_bytes(s.subrange(0, 4))),
    ensures
        spec_read(s) == Err::<crate::header::FrameInfo, Error>(
            Error::SkippableFrame(spec_u32_from_le_bytes(s.subrange(4, 8))),
        ),
{
}

/// The all-zero size record decodes to the end marker, never to a
/// zero-length compressed block.
pub proof fn lemma_zero_record_is_end_mark(s: Seq<u8>)
    requires
        s.len() >= 4,
        spec_u32_from_le_bytes(s.subrange(0, 4)) == 0,
    ensures
        spec_block_read(s) == Ok::<BlockInfo, Error>(BlockInfo::EndMark),
{
}

/// Decoding the encoding of a block record reproduces it, for every record
/// whose size fits the 31 bits the format can express. The one record left
/// out is a zero-length compressed block, whose encoding is the all-zero
/// word and therefore decodes to the end marker.
pub proof fn lemma_block_round_trip(info: BlockInfo)
    requires
        info.spec_valid(),
        info != BlockInfo::Compressed(0usize),
    ensures
        spec_block_read(spec_block_encode(info)) == Ok::<BlockInfo, Error>(info),
{
    lemma_auto_spec_u32_to_from_le_bytes();
    let word = info.spec_word();
    let s = spec_block_encode(info);
    assert(s.subrange(0, 4) =~= s);
    assert(spec_u32_from_le_bytes(s.subrange(0, 4)) == word);
    match info {
        BlockInfo::EndMark => {
        },
        BlockInfo::Uncompressed(size) => {
            let n32 = size as u32;
            assert(((n32 | 0x8000_0000u32) != 0 && (n32 | 0x8000_0000u32) & 0x8000_0000u32 != 0
                && ((n32 | 0x8000_0000u32) & 0x7FFF_FFFFu32) == n32) && (n32 & 0x8000_0000u32
                == 0)) by (bit_vector)
                requires
                    n32 <= 0x7FFF_FFFFu32,
            ;
            assert(word == n32 | 0x8000_0000u32);
            assert((word & MAX_BLOCK_PAYLOAD) as usize == size);
        },
        BlockInfo::Compressed(size) => {
            let n32 = size as u32;
            assert(n32 & 0x8000_0000u32 == 0) by (bit_vector)
                requires
                    n32 <= 0x7FFF_FFFFu32,
            ;
            assert(word == n32 && word != 0);
            assert(word as usize == size);
        },
    }
}

} // verus!
