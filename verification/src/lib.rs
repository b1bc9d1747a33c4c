//! Framing layer of an LZ4-style block-compression container.
//!
//! The crate decodes and encodes the structural metadata that wraps
//! compressed or stored payload blocks: the variable-length frame header
//! (magic number, flag byte, block descriptor, optional content size and
//! dictionary id, one-byte header checksum), the 4-byte per-block size
//! record, and the minimum byte count a streaming caller must buffer
//! before a decode can be attempted. Payload compression itself is out of
//! scope: every operation here is a pure function from bytes to values.

pub mod block;
pub mod error;
mod hash;
pub mod header;
pub mod laws;

pub use block::BlockInfo;
pub use error::Error;
pub use header::BlockMode;
pub use header::BlockSize;
pub use header::FrameInfo;
