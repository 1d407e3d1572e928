//! The stateless builder for outbound frames: opcode and body in, correctly
//! framed wire bytes out, with a fresh nonce attached.

use crate::error::CodecError;
use crate::frame::{spec_frame_bytes, NonceGenerator};
use crate::header::{Header, HeaderCodec, Version};
use crate::wire::{lemma_be_bytes_len, push_be_u64};
use crate::{HEADER_LEN, MAGIC, MAX_FRAME_LEN, NONCE_LEN};
use vstd::prelude::*;

verus! {

/// The header an outbound frame for `(version, opcode, id)` and a body of
/// `body_len` bytes carries.
pub open spec fn spec_outbound_header(version: Version, opcode: u8, id: u32, body_len: int) -> Header {
    Header { magic: MAGIC, id, version, opcode, length: (body_len + NONCE_LEN as int) as u16 }
}

/// Stateless serializer for outbound commands. Safe to invoke concurrently
/// from many threads; every call is a pure function of its arguments plus
/// the nonce source's next value.
pub struct FrameEncoder;

impl FrameEncoder {
    /// Serialize one outbound frame around a caller-chosen nonce: the
    /// header (with `length = NONCE_LEN + body.len()`), then the nonce
    /// big-endian, then the body, in that order. Fails with `FrameTooLarge`,
    /// and only with it, exactly when the body would push the frame past
    /// `MAX_FRAME_LEN`; the inputs are never mutated.
    pub fn encode_with_nonce(
        version: Version,
        opcode: u8,
        id: u32,
        nonce: u64,
        body: &Vec<u8>,
    ) -> (r: Result<Vec<u8>, CodecError>)
        ensures
            body@.len() + NONCE_LEN as int <= MAX_FRAME_LEN as int - HEADER_LEN as int ==> (
            r matches Ok(v) && v@ == spec_frame_bytes(
                spec_outbound_header(version, opcode, id, body@.len() as int),
                nonce,
                body@,
            )),
            body@.len() + NONCE_LEN as int > MAX_FRAME_LEN as int - HEADER_LEN as int ==> (r
                matches Err(e) && e == CodecError::FrameTooLarge),
    {
        if body.len() > MAX_FRAME_LEN - HEADER_LEN - NONCE_LEN {
            return Err(CodecError::FrameTooLarge);
        }
        let length: u16 = (body.len() + NONCE_LEN) as u16;
        let header = Header { magic: MAGIC, id, version, opcode, length };
        let mut out = HeaderCodec::encode(&header);
        push_be_u64(&mut out, nonce);
        out.extend_from_slice(body.as_slice());
        proof {
            lemma_be_bytes_len(nonce as int, 8);
            assert(out@ =~= spec_frame_bytes(
                spec_outbound_header(version, opcode, id, body@.len() as int),
                nonce,
                body@,
            ));
        }
        Ok(out)
    }

    /// Serialize one outbound frame, drawing the nonce from `nonce_source`.
    /// Succeeds exactly when the body fits; with a `Fixed` source the result
    /// is pinned byte for byte, and whatever the source, some nonce value
    /// accounts for the bytes produced.
    pub fn encode(
        version: Version,
        opcode: u8,
        id: u32,
        body: &Vec<u8>,
        nonce_source: &NonceGenerator,
    ) -> (r: Result<Vec<u8>, CodecError>)
        ensures
            body@.len() + NONCE_LEN as int <= MAX_FRAME_LEN as int - HEADER_LEN as int ==> (
            r matches Ok(v) && exists|n: u64|
                v@ == spec_frame_bytes(
                    spec_outbound_header(version, opcode, id, body@.len() as int),
                    n,
                    body@,
                )),
            body@.len() + NONCE_LEN as int > MAX_FRAME_LEN as int - HEADER_LEN as int ==> (r
                matches Err(e) && e == CodecError::FrameTooLarge),
            *nonce_source is Fixed && body@.len() + NONCE_LEN as int <= MAX_FRAME_LEN as int
                - HEADER_LEN as int ==> (r matches Ok(v) && v@ == spec_frame_bytes(
                spec_outbound_header(version, opcode, id, body@.len() as int),
                (*nonce_source)->Fixed_0,
                body@,
            )),
    {
        let nonce = nonce_source.next();
        let r = Self::encode_with_nonce(version, opcode, id, nonce, body);
        proof {
            if body@.len() + NONCE_LEN as int <= MAX_FRAME_LEN as int - HEADER_LEN as int {
                assert(r matches Ok(v) && v@ == spec_frame_bytes(
                    spec_outbound_header(version, opcode, id, body@.len() as int),
                    nonce,
                    body@,
                ));
            }
        }
        r
    }
}

} // verus!
