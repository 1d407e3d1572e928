//! The decoder's growable input buffer is `bytes::BytesMut`, the same
//! cheaply-splittable buffer the transport fills from the stream. Verus sees
//! it as an opaque type; everything the decoder does to it goes through the
//! few trusted wrappers below, whose contracts speak of `bytes_of`, the
//! sequence of bytes the buffer currently holds.

use bytes::BytesMut;
use vstd::prelude::*;

verus! {

#[verifier::external_type_specification]
#[verifier::external_body]
pub struct ExBytesMut(BytesMut);

/// The bytes a `BytesMut` currently holds, in order, oldest first.
pub uninterp spec fn bytes_of(b: BytesMut) -> Seq<u8>;

/// Relies on `BytesMut::len`: the number of bytes in the buffer.
#[verifier::external_body]
pub(crate) fn buf_len(b: &BytesMut) -> (r: usize)
    ensures
        r == bytes_of(*b).len(),
{
    b.len()
}

/// Relies on `BytesMut`'s `Deref` to `[u8]`: the buffer's bytes in order.
/// Copies the first `n` of them out without consuming anything.
#[verifier::external_body]
pub(crate) fn buf_prefix(b: &BytesMut, n: usize) -> (r: Vec<u8>)
    requires
        n <= bytes_of(*b).len(),
    ensures
        r@ == bytes_of(*b).take(n as int),
{
    b[..n].to_vec()
}

/// Relies on `bytes::Buf::advance` for `BytesMut`: the first `n` bytes are
/// dropped and the rest stay, in order. Panics if `n` exceeds the length,
/// which the precondition rules out.
#[verifier::external_body]
pub(crate) fn buf_advance(b: &mut BytesMut, n: usize)
    requires
        n <= bytes_of(*old(b)).len(),
    ensures
        bytes_of(*final(b)) == bytes_of(*old(b)).skip(n as int),
{
    bytes::Buf::advance(b, n);
}

/// Relies on `BytesMut::split_to`: afterwards the returned buffer holds the
/// first `n` bytes and `b` the rest, both in order. Panics if `n` exceeds
/// the length, which the precondition rules out.
#[verifier::external_body]
pub(crate) fn buf_split_to(b: &mut BytesMut, n: usize) -> (r: BytesMut)
    requires
        n <= bytes_of(*old(b)).len(),
    ensures
        bytes_of(r) == bytes_of(*old(b)).take(n as int),
        bytes_of(*final(b)) == bytes_of(*old(b)).skip(n as int),
{
    b.split_to(n)
}

} // verus!
