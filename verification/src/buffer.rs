//! Trusted view of the transport buffer.
//!
//! The runtime that drives the codec owns a growable byte buffer
//! (`bytes::BytesMut`) that supports cheap "drop N bytes from the front"
//! and "append" operations.  Verus cannot look inside that type, so this
//! module declares it, names its contents as a byte sequence, and wraps
//! each operation the codec needs with a contract over that sequence.

use vstd::prelude::*;
use bytes::BytesMut;

verus! {

#[verifier::external_type_specification]
#[verifier::external_body]
pub struct ExBytesMut(BytesMut);

/// The bytes a buffer currently holds, front to back.
pub uninterp spec fn buf_bytes(b: BytesMut) -> Seq<u8>;

/// Relies on bytes::BytesMut::len: the number of bytes the buffer holds.
#[verifier::external_body]
pub(crate) fn buf_len(b: &BytesMut) -> (r: usize)
    ensures
        r == buf_bytes(*b).len(),
{
    b.len()
}

/// Relies on bytes::BytesMut::is_empty: true exactly when the buffer
/// holds no bytes.
#[verifier::external_body]
pub(crate) fn buf_is_empty(b: &BytesMut) -> (r: bool)
    ensures
        r == (buf_bytes(*b).len() == 0),
{
    b.is_empty()
}

/// Relies on bytes::BytesMut's slice indexing: a view of the buffer's
/// current contents.
#[verifier::external_body]
pub(crate) fn buf_slice(b: &BytesMut) -> (r: &[u8])
    ensures
        r@ == buf_bytes(*b),
{
    &b[..]
}

/// Relies on bytes::BytesMut::split_to: drops the first `n` bytes from the
/// front of the buffer, leaving the remainder at offset zero.  `split_to`
/// panics when `n` exceeds the buffer's length, so that is required away.
#[verifier::external_body]
pub(crate) fn buf_advance(b: &mut BytesMut, n: usize)
    requires
        n <= buf_bytes(*old(b)).len(),
    ensures
        buf_bytes(*final(b)) == buf_bytes(*old(b)).skip(n as int),
{
    let _ = b.split_to(n);
}

/// Relies on bytes::BytesMut::reserve: makes room for `additional` more
/// bytes without changing the contents.  `reserve` panics when the new
/// capacity overflows `usize`, so that is required away.
#[verifier::external_body]
pub(crate) fn buf_reserve(b: &mut BytesMut, additional: usize)
    requires
        buf_bytes(*old(b)).len() + additional <= usize::MAX,
    ensures
        buf_bytes(*final(b)) == buf_bytes(*old(b)),
{
    b.reserve(additional);
}

/// Relies on bytes::BytesMut::extend_from_slice: appends the given bytes
/// verbatim to the back of the buffer.
#[verifier::external_body]
pub(crate) fn buf_extend(b: &mut BytesMut, data: &[u8])
    ensures
        buf_bytes(*final(b)) == buf_bytes(*old(b)) + data@,
{
    b.extend_from_slice(data);
}

} // verus!
