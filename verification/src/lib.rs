//! A binary frame codec for a request/response protocol carried over a byte
//! stream. Untrusted bytes go in; validated, typed `Frame` values come out,
//! and outbound commands become correctly framed wire bytes with a fresh
//! random correlation nonce attached.
//!
//! Frames use Type-Length-Value framing: a fixed 12-byte header whose
//! `length` field says how many message bytes (nonce plus body) follow. The
//! decoder is incremental — it is handed a growing buffer as bytes arrive and
//! consumes nothing until a whole, validated frame is present — and every
//! untrusted header field is checked before it is allowed to drive control
//! flow or buffering. The contracts in this crate pin down, byte for byte,
//! what is produced, what is consumed, and which error each malformed input
//! earns; `laws` states the stream-level guarantees built on top.

use vstd::prelude::*;

pub mod buffer;
pub mod decoder;
pub mod encoder;
pub mod error;
pub mod frame;
pub mod header;
pub mod laws;
pub mod wire;

pub use decoder::{DecodeOutcome, FrameDecoder};
pub use encoder::FrameEncoder;
pub use error::CodecError;
pub use frame::{Frame, FrameModel, Message, Nonce, NonceGenerator};
pub use header::{Header, HeaderCodec, Version};

verus! {

/// Total number of bytes in a fixed-size frame header on the wire:
/// 4 (magic) + 4 (id) + 1 (version) + 1 (opcode) + 2 (length).
pub const HEADER_LEN: usize = 12;

/// Number of bytes of the random correlation nonce at the start of a message.
pub const NONCE_LEN: usize = 8;

/// Upper bound on the total size of a frame on the wire (header included).
pub const MAX_FRAME_LEN: usize = 65536;

/// Fixed four-byte marker that opens every frame of this protocol; any other
/// value at the front of a stream is corruption or a foreign protocol.
pub const MAGIC: u32 = 0xC0DE_C0DE;

} // verus!
