//! Error and control-signal vocabulary shared by the frame and block codecs.

use vstd::prelude::*;

verus! {

/// Outcome of a failed (or redirected) decode. Every variant is surfaced
/// verbatim to the caller; nothing is retried internally.
#[derive(Debug, Clone, Copy, PartialEq, Eq, Structural)]
pub enum Error {
    /// The first four bytes match neither the standard magic number nor the
    /// reserved skippable range; reading more bytes cannot repair this.
    WrongMagicNumber,
    /// Not a failure of the input: the buffer begins a foreign skippable
    /// chunk, and the caller must skip this many payload bytes before
    /// retrying a frame decode.
    SkippableFrame(u32),
    /// The version bits of the flag byte (carried here, already masked)
    /// differ from the single supported version tag.
    UnsupportedVersion(u8),
    /// The block-size code (carried here) is one of the reserved values
    /// that the format has not assigned a meaning.
    UnimplementedBlocksize(u8),
    /// The checksum computed over the consumed header bytes disagrees with
    /// the declared checksum byte: the header is corrupt.
    HeaderChecksumError,
    /// Fewer bytes were supplied than the next field requires; the caller
    /// violated the `required_size` contract or the source ended early.
    TruncatedInput,
}

} // verus!
