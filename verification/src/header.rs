//! The fixed-size frame header: its wire layout, its validation rules, and
//! the stateless codec that reads and writes it.

use crate::error::CodecError;
use crate::wire::{be_bytes, be_u16_at, be_u32_at, be_val, lemma_be_bytes_len, push_be_u16,
    push_be_u32};
use crate::{HEADER_LEN, MAGIC, MAX_FRAME_LEN, NONCE_LEN};
use vstd::prelude::*;

verus! {

/// Which way a frame travels, carried in the version byte: `0x01` marks a
/// request, `0x81` a response. A closed two-variant type, so that a future
/// version value is a compile-time-visible change rather than a stray byte.
#[derive(Clone, Copy, Debug, PartialEq, Eq, Structural)]
pub enum Version {
    Request,
    Response,
}

/// The byte that stands for `v` on the wire.
pub open spec fn version_byte(v: Version) -> u8 {
    match v {
        Version::Request => 0x01,
        Version::Response => 0x81,
    }
}

/// The version a raw byte decodes to, if it is either accepted value.
pub open spec fn spec_version_of_byte(b: u8) -> Option<Version> {
    if b == 0x01 {
        Some(Version::Request)
    } else if b == 0x81 {
        Some(Version::Response)
    } else {
        None
    }
}

impl Version {
    /// The two-valued conversion from the raw wire byte: exactly `0x01` and
    /// `0x81` are accepted, anything else is a fatal `InvalidVersion`.
    pub fn try_from(value: u8) -> (r: Result<Version, CodecError>)
        ensures
            r == match spec_version_of_byte(value) {
                Some(v) => Ok::<Version, CodecError>(v),
                None => Err::<Version, CodecError>(CodecError::InvalidVersion),
            },
    {
        match value {
            0x01 => Ok(Version::Request),
            0x81 => Ok(Version::Response),
            _ => Err(CodecError::InvalidVersion),
        }
    }

    /// The byte this version is written as.
    pub fn as_byte(&self) -> (r: u8)
        ensures
            r == version_byte(*self),
    {
        match self {
            Version::Request => 0x01,
            Version::Response => 0x81,
        }
    }
}

/// The fixed 12-byte prefix of every frame.
///
/// Beyond the minimal `version`/`opcode`/`length` triple, the canonical
/// header carries `magic`, so a receiver can tell a desynchronized or foreign
/// stream from a short read, and `id`, so a caller can pair a response with
/// the request that provoked it. All multi-byte fields travel big-endian.
#[derive(Clone, Copy, Debug, PartialEq, Eq, Structural)]
pub struct Header {
    /// Fixed protocol marker; anything but `MAGIC` is corruption.
    pub magic: u32,
    /// Frame identifier (sequence- or source-assigned); opaque to the codec.
    pub id: u32,
    /// Whether the frame is a request or a response.
    pub version: Version,
    /// Command code; the codec checks only that it is present.
    pub opcode: u8,
    /// Byte length of everything after the header: nonce plus body.
    pub length: u16,
}

/// A header the decoder is willing to act on: the marker is right and the
/// declared length can hold the nonce without pushing the whole frame past
/// `MAX_FRAME_LEN`.
pub open spec fn header_wf(h: Header) -> bool {
    &&& h.magic == MAGIC
    &&& NONCE_LEN as int <= h.length as int <= MAX_FRAME_LEN as int - HEADER_LEN as int
}

/// The exact 12 bytes that `h` occupies on the wire.
pub open spec fn spec_header_bytes(h: Header) -> Seq<u8> {
    be_bytes(h.magic as int, 4) + be_bytes(h.id as int, 4) + seq![
        version_byte(h.version),
        h.opcode,
    ] + be_bytes(h.length as int, 2)
}

/// What reading a header out of the first `HEADER_LEN` bytes of `s` yields:
/// the magic marker is checked first, then the version byte; the field
/// values land unchanged in the result.
pub open spec fn spec_decode_header(s: Seq<u8>) -> Result<Header, CodecError>
    recommends
        s.len() >= HEADER_LEN as int,
{
    if be_val(s.subrange(0, 4)) != MAGIC as int {
        Err(CodecError::InvalidMagic)
    } else if spec_version_of_byte(s[8]) is None {
        Err(CodecError::InvalidVersion)
    } else {
        Ok(
            Header {
                magic: MAGIC,
                id: be_val(s.subrange(4, 8)) as u32,
                version: spec_version_of_byte(s[8]).unwrap(),
                opcode: s[9],
                length: be_val(s.subrange(10, 12)) as u16,
            },
        )
    }
}

/// Stateless transform between `Header` values and their wire bytes. Pure:
/// no retained state, safe to call from many threads at once.
pub struct HeaderCodec;

impl HeaderCodec {
    /// Read and validate a header from exactly `HEADER_LEN` bytes; the
    /// caller guarantees the slice length. Fails with `InvalidMagic` if the
    /// marker mismatches, with `InvalidVersion` if the version byte is
    /// neither accepted value; never panics.
    pub fn decode(bytes: &Vec<u8>) -> (r: Result<Header, CodecError>)
        requires
            bytes@.len() == HEADER_LEN as int,
        ensures
            r == spec_decode_header(bytes@),
    {
        let magic = be_u32_at(bytes, 0);
        if magic != MAGIC {
            return Err(CodecError::InvalidMagic);
        }
        let id = be_u32_at(bytes, 4);
        let version = match Version::try_from(bytes[8]) {
            Ok(v) => v,
            Err(e) => {
                return Err(e);
            },
        };
        let opcode = bytes[9];
        let length = be_u16_at(bytes, 10);
        Ok(Header { magic, id, version, opcode, length })
    }

    /// Write `header` as its `HEADER_LEN` wire bytes. Always succeeds: every
    /// representable `Header` value has an encoding.
    pub fn encode(header: &Header) -> (r: Vec<u8>)
        ensures
            r@ == spec_header_bytes(*header),
            r@.len() == HEADER_LEN as int,
    {
        let mut out: Vec<u8> = Vec::new();
        push_be_u32(&mut out, header.magic);
        push_be_u32(&mut out, header.id);
        out.push(header.version.as_byte());
        out.push(header.opcode);
        push_be_u16(&mut out, header.length);
        proof {
            lemma_be_bytes_len(header.magic as int, 4);
            lemma_be_bytes_len(header.id as int, 4);
            lemma_be_bytes_len(header.length as int, 2);
            assert(out@ =~= spec_header_bytes(*header));
        }
        out
    }
}

} // verus!
