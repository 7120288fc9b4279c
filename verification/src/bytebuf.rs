//! The growable byte buffers behind the framing layer.
//!
//! The buffers are `bytes::BytesMut` values. The library sees them only
//! through the small trusted surface below: a buffer holds a sequence of
//! bytes, oldest first, named by [`bytes_mut_view`]; bytes are appended at
//! the back and consumed from the front.

use vstd::prelude::*;

verus! {

#[verifier::external_type_specification]
#[verifier::external_body]
pub struct ExBytesMut(bytes::BytesMut);

/// The bytes a `bytes::BytesMut` currently holds, oldest first.
pub uninterp spec fn bytes_mut_view(b: bytes::BytesMut) -> Seq<u8>;

/// Relies on bytes::BytesMut::with_capacity: the new buffer is empty; the
/// capacity is only an allocation hint.
#[verifier::external_body]
pub fn byte_buf_with_capacity(capacity: usize) -> (r: bytes::BytesMut)
    ensures
        bytes_mut_view(r) == Seq::<u8>::empty(),
{
    bytes::BytesMut::with_capacity(capacity)
}

/// Relies on bytes::BytesMut's `Deref<Target = [u8]>`: the slice holds
/// exactly the buffer's bytes.
#[verifier::external_body]
pub fn byte_buf_bytes<'a>(b: &'a bytes::BytesMut) -> (r: &'a [u8])
    ensures
        r@ == bytes_mut_view(*b),
{
    &b[..]
}

/// Relies on bytes::BytesMut::extend_from_slice: the bytes of `s` are
/// appended at the back of the buffer.
#[verifier::external_body]
pub fn byte_buf_extend(b: &mut bytes::BytesMut, s: &[u8])
    ensures
        bytes_mut_view(*final(b)) == bytes_mut_view(*old(b)) + s@,
{
    b.extend_from_slice(s);
}

/// Relies on `<bytes::BytesMut as bytes::Buf>::advance`: the first `n`
/// bytes are consumed from the front. The callee panics when `n` is larger
/// than the buffer, so that case is kept out.
#[verifier::external_body]
pub fn byte_buf_advance(b: &mut bytes::BytesMut, n: usize)
    requires
        n <= bytes_mut_view(*old(b)).len(),
    ensures
        bytes_mut_view(*final(b)) == bytes_mut_view(*old(b)).skip(n as int),
{
    bytes::Buf::advance(b, n);
}

} // verus!
