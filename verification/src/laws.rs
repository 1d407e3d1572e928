//! The codec's global guarantees, stated and proved over the same spec
//! functions that the executable contracts use.

use crate::decoder::{spec_decode, spec_parse_header, DecodeOutcome};
use crate::encoder::spec_outbound_header;
use crate::error::CodecError;
use crate::frame::{spec_frame_bytes, FrameModel};
use crate::header::{spec_decode_header, spec_version_of_byte, version_byte, Version};
use crate::wire::{be_bytes, be_val, lemma_be_bytes_len, lemma_be_val_bounds,
    lemma_be_val_of_be_bytes, lemma_pow256_values};
use crate::{HEADER_LEN, MAGIC, MAX_FRAME_LEN, NONCE_LEN};
use vstd::prelude::*;

verus! {

/// Round trip: every valid `(version, opcode, id, nonce, body)` whose body
/// fits the frame bound decodes, from exactly the bytes its encoding
/// produces, back to the frame it came from — same header fields, same
/// nonce, same body.
pub proof fn lemma_round_trip(version: Version, opcode: u8, id: u32, nonce: u64, body: Seq<u8>)
    requires
        body.len() <= MAX_FRAME_LEN as int - HEADER_LEN as int - NONCE_LEN as int,
    ensures
        ({
            let h = spec_outbound_header(version, opcode, id, body.len() as int);
            spec_decode(spec_frame_bytes(h, nonce, body)) == DecodeOutcome::Complete(
                FrameModel { header: h, nonce, body },
            )
        }),
{
    let h = spec_outbound_header(version, opcode, id, body.len() as int);
    let s = spec_frame_bytes(h, nonce, body);
    let a = be_bytes(h.magic as int, 4);
    let b = be_bytes(h.id as int, 4);
    let c = seq![version_byte(h.version), h.opcode];
    let d = be_bytes(h.length as int, 2);
    let e = be_bytes(nonce as int, 8);
    lemma_be_bytes_len(h.magic as int, 4);
    lemma_be_bytes_len(h.id as int, 4);
    lemma_be_bytes_len(h.length as int, 2);
    lemma_be_bytes_len(nonce as int, 8);
    lemma_pow256_values();
    assert(s =~= a + b + c + d + e + body);
    assert(s.subrange(0, 4) =~= a);
    assert(s.subrange(4, 8) =~= b);
    assert(s[8] == version_byte(h.version));
    assert(s[9] == h.opcode);
    assert(s.subrange(10, 12) =~= d);
    assert(s.subrange(12, 20) =~= e);
    assert(s.subrange(20, HEADER_LEN as int + h.length as int) =~= body);
    lemma_be_val_of_be_bytes(h.magic as int, 4);
    lemma_be_val_of_be_bytes(h.id as int, 4);
    lemma_be_val_of_be_bytes(h.length as int, 2);
    lemma_be_val_of_be_bytes(nonce as int, 8);
    assert(spec_version_of_byte(version_byte(h.version)) == Some(h.version));
    assert(spec_decode_header(s) == Ok::<_, CodecError>(h));
    assert(spec_parse_header(s) == Ok::<_, CodecError>(h));
    assert(spec_decode(s) matches DecodeOutcome::Complete(m) && m =~= FrameModel {
        header: h,
        nonce,
        body,
    });
}

/// Incremental equivalence: hand the decoder any strict prefix of the exact
/// bytes of one frame and it asks for more data, consuming nothing; only
/// the full buffer yields the frame — and which frame that is depends on
/// the bytes alone, so feeding them one at a time ends the same way as
/// feeding them at once.
pub proof fn lemma_incremental_decode(s: Seq<u8>, i: int)
    requires
        spec_decode(s) is Complete,
        s.len() == HEADER_LEN as int + spec_decode(s)->Complete_0.header.length as int,
        0 <= i < s.len(),
    ensures
        spec_decode(s.take(i)) == DecodeOutcome::Incomplete,
{
    let t = s.take(i);
    if i >= HEADER_LEN as int {
        assert(t.subrange(0, 4) =~= s.subrange(0, 4));
        assert(t.subrange(4, 8) =~= s.subrange(4, 8));
        assert(t[8] == s[8]);
        assert(t[9] == s[9]);
        assert(t.subrange(10, 12) =~= s.subrange(10, 12));
        assert(spec_decode_header(t) == spec_decode_header(s));
    }
}

/// Magic rejection: a buffer whose first four bytes are not the protocol
/// marker never yields a frame; as soon as a whole header is buffered, the
/// verdict is exactly `InvalidMagic`.
pub proof fn lemma_magic_rejection(s: Seq<u8>)
    requires
        s.len() >= 4,
        be_val(s.subrange(0, 4)) != MAGIC as int,
    ensures
        !(spec_decode(s) is Complete),
        s.len() >= HEADER_LEN as int ==> spec_decode(s) == DecodeOutcome::Fatal(
            CodecError::InvalidMagic,
        ),
{
}

/// Oversized length rejection: a whole buffered header with the right
/// marker and an accepted version byte, whose declared length exceeds
/// `MAX_FRAME_LEN - HEADER_LEN`, is rejected as `FrameTooLarge` on the
/// spot — however few of the claimed bytes are actually buffered.
pub proof fn lemma_oversized_rejection(s: Seq<u8>)
    requires
        s.len() >= HEADER_LEN as int,
        be_val(s.subrange(0, 4)) == MAGIC as int,
        spec_version_of_byte(s[8]) is Some,
        be_val(s.subrange(10, 12)) > MAX_FRAME_LEN as int - HEADER_LEN as int,
    ensures
        spec_decode(s) == DecodeOutcome::Fatal(CodecError::FrameTooLarge),
{
    lemma_be_val_bounds(s.subrange(10, 12));
    lemma_pow256_values();
}

/// Version validation: with a whole header buffered and the marker right,
/// the byte `0x01` can only ever decode as `Request` and `0x81` only as
/// `Response`, while any other version byte makes the verdict exactly
/// `InvalidVersion`.
pub proof fn lemma_version_validation(s: Seq<u8>)
    requires
        s.len() >= HEADER_LEN as int,
        be_val(s.subrange(0, 4)) == MAGIC as int,
    ensures
        spec_parse_header(s) matches Ok(h) ==> h.version == spec_version_of_byte(s[8]).unwrap(),
        s[8] == 0x01 ==> (spec_parse_header(s) matches Ok(h) ==> h.version == Version::Request),
        s[8] == 0x81 ==> (spec_parse_header(s) matches Ok(h) ==> h.version == Version::Response),
        s[8] != 0x01 && s[8] != 0x81 ==> spec_decode(s) == DecodeOutcome::Fatal(
            CodecError::InvalidVersion,
        ),
{
}

} // verus!
