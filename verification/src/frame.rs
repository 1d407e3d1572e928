//! Frames and the values they carry: the typed unit the decoder hands out,
//! the message behind the header, and the random correlation nonce.

use crate::buffer::bytes_of;
use crate::header::{spec_header_bytes, Header};
use crate::wire::be_bytes;
use bytes::BytesMut;
use vstd::prelude::*;

verus! {

/// What follows the header on the wire: an 8-byte random nonce and then a
/// body of `header.length - NONCE_LEN` bytes. The body stays in the
/// zero-copy buffer it arrived in.
#[derive(Debug)]
pub struct Message {
    /// Randomly generated identifier, read big-endian from the wire; used by
    /// the caller to correlate a response with its request.
    pub nonce: u64,
    /// Variable-length payload whose size the header's `length` field
    /// determines.
    pub body: BytesMut,
}

/// One complete protocol unit: a validated header and its message. Built by
/// the decoder only once every byte of the frame is buffered, then handed to
/// the caller read-only; the codec never mutates it afterwards.
#[derive(Debug)]
pub struct Frame {
    pub header: Header,
    pub message: Message,
}

/// The mathematical content of a frame: what a `Frame` means once the
/// opaque buffer holding its body is read off as a byte sequence.
#[verifier::ext_equal]
pub struct FrameModel {
    pub header: Header,
    pub nonce: u64,
    pub body: Seq<u8>,
}

/// The model of an executable `Frame`.
pub open spec fn frame_model(f: Frame) -> FrameModel {
    FrameModel { header: f.header, nonce: f.message.nonce, body: bytes_of(f.message.body) }
}

/// The full wire image of one frame: header bytes, then the nonce
/// big-endian, then the body.
pub open spec fn spec_frame_bytes(h: Header, nonce: u64, body: Seq<u8>) -> Seq<u8> {
    spec_header_bytes(h) + be_bytes(nonce as int, 8) + body
}

/// Relies on `rand::random::<u64>` (a `ThreadRng`, cryptographically
/// secure, seeded by the operating system): a fresh random value. Nothing
/// can be promised about which value comes back.
#[verifier::external_body]
fn random_u64() -> u64 {
    rand::random::<u64>()
}

/// An 8-byte random identifier attached to an outbound frame so the caller
/// can pair an eventual response with its request. Correlation, not
/// authentication: it is no cryptographic MAC, and no uniqueness is enforced
/// beyond the size of the space it is drawn from.
#[derive(Clone, Copy, Debug)]
pub struct Nonce {
    value: u64,
}

impl Nonce {
    /// Constructs a new `Nonce` by drawing a random value.
    pub fn new() -> Self {
        Nonce { value: random_u64() }
    }

    /// The nonce a caller chose; for deterministic callers and tests.
    pub fn from_value(value: u64) -> (r: Self)
        ensures
            r.value() == value,
    {
        Nonce { value }
    }

    /// Get a reference to the inner value.
    pub fn get_ref(&self) -> (r: &u64)
        ensures
            *r == self.value(),
    {
        &self.value
    }

    /// The value this nonce carries.
    pub closed spec fn value(&self) -> u64 {
        self.value
    }
}

impl Default for Nonce {
    fn default() -> Self {
        Nonce::new()
    }
}

/// Where an encoder's nonces come from. An explicit dependency rather than
/// hidden global state: production callers pass `Random`, which draws from a
/// cryptographically secure source that is safe to share between threads,
/// while tests pass `Fixed` to make encoding deterministic.
#[derive(Clone, Copy, Debug, PartialEq, Eq, Structural)]
pub enum NonceGenerator {
    /// Every draw is a fresh value from the secure random source.
    Random,
    /// Every draw returns this value; for deterministic callers and tests.
    Fixed(u64),
}

impl NonceGenerator {
    /// The next 8-byte identifier from this source.
    pub fn next(&self) -> (r: u64)
        ensures
            *self matches NonceGenerator::Fixed(n) ==> r == n,
    {
        match self {
            NonceGenerator::Random => random_u64(),
            NonceGenerator::Fixed(n) => *n,
        }
    }
}

} // verus!
