use vstd::prelude::*;

verus! {

/// Everything the codec can report to a caller.
///
/// Only `MissingData` is recoverable: the transport buffers more bytes and
/// calls again. Every other kind is fatal for the stream that produced it,
/// and the connection owner is expected to close the stream rather than
/// resynchronize.
#[derive(Debug, Clone, PartialEq, Eq)]
pub enum CodecError {
    /// Not enough bytes are buffered yet; append more and retry. Never
    /// indicates corruption, and no buffered byte is consumed when it is
    /// returned.
    MissingData,
    /// The first four bytes are not the protocol marker: the stream has
    /// desynchronized or does not speak this protocol.
    InvalidMagic,
    /// The version byte is neither of the two accepted values.
    InvalidVersion,
    /// The declared length would make the whole frame exceed `MAX_FRAME_LEN`.
    FrameTooLarge,
    /// The declared length is below `NONCE_LEN`: the message could not even
    /// hold its nonce, so the header is malformed.
    InvalidLength,
    /// A failure of the underlying byte source or sink, surfaced through the
    /// codec's result type by the transport that owns the stream. The codec
    /// itself never constructs this kind.
    IOError(String),
}

} // verus!
