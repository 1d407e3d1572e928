//! The incremental parser: one instance per logical byte stream, fed a
//! growable buffer by the transport until whole frames fall out.

use crate::buffer::{buf_advance, buf_len, buf_prefix, buf_split_to, bytes_of};
use crate::error::CodecError;
use crate::frame::{frame_model, Frame, FrameModel, Message};
use crate::header::{header_wf, spec_decode_header, Header, HeaderCodec};
use crate::wire::be_val;
use crate::{HEADER_LEN, MAX_FRAME_LEN, NONCE_LEN};
use bytes::BytesMut;
use vstd::prelude::*;

verus! {

/// What one decode step over the buffered bytes `s` must yield.
#[verifier::ext_equal]
pub enum DecodeOutcome {
    /// Not enough bytes for a verdict yet; nothing may be consumed.
    Incomplete,
    /// The stream is unrecoverable at this decoder; the connection owner
    /// must close it.
    Fatal(CodecError),
    /// Exactly one whole frame stands at the front of the buffer.
    Complete(FrameModel),
}

/// Parsing and validating the header at the front of `s`, eagerly: short
/// buffers ask for more bytes; a bad marker, version byte, or declared
/// length is rejected before any body byte is waited for, so a hostile
/// header cannot make the decoder buffer an enormous claimed body.
pub open spec fn spec_parse_header(s: Seq<u8>) -> Result<Header, CodecError> {
    if s.len() < HEADER_LEN as int {
        Err(CodecError::MissingData)
    } else {
        match spec_decode_header(s) {
            Err(e) => Err(e),
            Ok(h) => if h.length as int > MAX_FRAME_LEN as int - HEADER_LEN as int {
                Err(CodecError::FrameTooLarge)
            } else if (h.length as int) < NONCE_LEN as int {
                Err(CodecError::InvalidLength)
            } else {
                Ok(h)
            },
        }
    }
}

/// The decoder's whole verdict on the buffered bytes `s`: header validation
/// first, then either a wait for the body or the frame itself, whose nonce
/// is the first `NONCE_LEN` message bytes read big-endian and whose body is
/// the remaining `length - NONCE_LEN`.
pub open spec fn spec_decode(s: Seq<u8>) -> DecodeOutcome {
    match spec_parse_header(s) {
        Err(CodecError::MissingData) => DecodeOutcome::Incomplete,
        Err(e) => DecodeOutcome::Fatal(e),
        Ok(h) => if s.len() < HEADER_LEN as int + h.length as int {
            DecodeOutcome::Incomplete
        } else {
            DecodeOutcome::Complete(
                FrameModel {
                    header: h,
                    nonce: be_val(
                        s.subrange(HEADER_LEN as int, HEADER_LEN as int + NONCE_LEN as int),
                    ) as u64,
                    body: s.subrange(
                        HEADER_LEN as int + NONCE_LEN as int,
                        HEADER_LEN as int + h.length as int,
                    ),
                },
            )
        },
    }
}

impl Frame {
    /// Parse and validate the header at the front of `src`, consuming
    /// nothing: with fewer than `HEADER_LEN` bytes buffered the answer is
    /// `MissingData`; otherwise the marker, the version byte and the
    /// declared length are all checked before any body byte is waited for.
    pub fn parse_header(src: &BytesMut) -> (r: Result<Header, CodecError>)
        ensures
            r == spec_parse_header(bytes_of(*src)),
            r matches Ok(h) ==> header_wf(h),
    {
        let ghost s = bytes_of(*src);
        let n = buf_len(src);
        if n < HEADER_LEN {
            return Err(CodecError::MissingData);
        }
        let hb = buf_prefix(src, HEADER_LEN);
        proof {
            assert(hb@.subrange(0, 4) =~= s.subrange(0, 4));
            assert(hb@.subrange(4, 8) =~= s.subrange(4, 8));
            assert(hb@.subrange(10, 12) =~= s.subrange(10, 12));
        }
        let h = match HeaderCodec::decode(&hb) {
            Ok(h) => h,
            Err(e) => {
                return Err(e);
            },
        };
        if h.length as usize > MAX_FRAME_LEN - HEADER_LEN {
            return Err(CodecError::FrameTooLarge);
        }
        if (h.length as usize) < NONCE_LEN {
            return Err(CodecError::InvalidLength);
        }
        Ok(h)
    }
}

/// Incremental parser over one logical byte stream. Its parse progress
/// lives entirely in the stream's buffer: no byte is consumed before the
/// instant a whole validated frame is produced, so a call that ends in
/// `MissingData` simply re-parses from the same spot once more bytes have
/// arrived, and no state can go stale in between. One instance belongs to
/// exactly one stream and must not be shared across unrelated streams, nor
/// called from several threads without outside synchronization: consuming
/// bytes from the shared buffer would race.
#[derive(Debug)]
pub struct FrameDecoder {}

impl FrameDecoder {
    /// A decoder for one fresh byte stream.
    pub fn new() -> FrameDecoder {
        FrameDecoder {}
    }

    /// One decode step over everything currently buffered.
    ///
    /// `Err(MissingData)` means: nothing was consumed, append more bytes to
    /// `buffer` and call again; the same call on the grown buffer continues
    /// deterministically where this one stopped. Any other error is fatal
    /// and also consumes nothing; the owning connection must close. On
    /// success, exactly the bytes of the returned frame have left the
    /// buffer, which may already hold the start of the next frame. `Ok` is
    /// never returned empty: an incomplete buffer is reported as
    /// `MissingData`.
    pub fn decode(&mut self, buffer: &mut BytesMut) -> (r: Result<Option<Frame>, CodecError>)
        ensures
            ({
                let s = bytes_of(*old(buffer));
                match spec_decode(s) {
                    DecodeOutcome::Incomplete => {
                        &&& r matches Err(e) && e == CodecError::MissingData
                        &&& bytes_of(*final(buffer)) == s
                    },
                    DecodeOutcome::Fatal(err) => {
                        &&& r matches Err(e) && e == err
                        &&& bytes_of(*final(buffer)) == s
                    },
                    DecodeOutcome::Complete(m) => {
                        &&& r matches Ok(opt) && opt matches Some(f) && frame_model(f) == m
                        &&& bytes_of(*final(buffer)) == s.skip(
                            HEADER_LEN as int + m.header.length as int,
                        )
                    },
                }
            }),
    {
        let ghost s = bytes_of(*buffer);
        let h = match Frame::parse_header(buffer) {
            Ok(h) => h,
            Err(e) => {
                return Err(e);
            },
        };
        let n = buf_len(buffer);
        let total: usize = HEADER_LEN + h.length as usize;
        if n < total {
            return Err(CodecError::MissingData);
        }
        buf_advance(buffer, HEADER_LEN);
        let nb = buf_prefix(buffer, NONCE_LEN);
        proof {
            assert(nb@.subrange(0, NONCE_LEN as int) =~= nb@);
            assert(nb@ =~= s.subrange(HEADER_LEN as int, HEADER_LEN as int + NONCE_LEN as int));
        }
        let nonce = crate::wire::be_u64_at(&nb, 0);
        buf_advance(buffer, NONCE_LEN);
        let body = buf_split_to(buffer, h.length as usize - NONCE_LEN);
        let frame = Frame { header: h, message: Message { nonce, body } };
        proof {
            assert(bytes_of(body) =~= s.subrange(
                HEADER_LEN as int + NONCE_LEN as int,
                HEADER_LEN as int + h.length as int,
            ));
            assert(bytes_of(*buffer) =~= s.skip(HEADER_LEN as int + h.length as int));
            assert(spec_decode(s) matches DecodeOutcome::Complete(m) && frame_model(frame) =~= m);
        }
        Ok(Some(frame))
    }
}

} // verus!
