//! The accumulation buffer for outbound handshake bytes.
//!
//! The session keeps outbound handshake bytes in a `bytes::BytesMut`; the
//! engine appends to it through the callback adapter during a negotiate
//! step. The buffer is held behind the trusted declarations below, and its
//! contents are named by [`bytes_view`].

use vstd::prelude::*;
use bytes::BytesMut;

verus! {

#[verifier::external_type_specification]
#[verifier::external_body]
pub struct ExBytesMut(BytesMut);

/// The bytes a `BytesMut` currently holds, in order.
pub uninterp spec fn bytes_view(b: BytesMut) -> Seq<u8>;

/// Relies on `bytes::BytesMut::new`: creates a buffer of length zero.
#[verifier::external_body]
pub(crate) fn bytes_new() -> (r: BytesMut)
    ensures
        bytes_view(r) == Seq::<u8>::empty(),
{
    BytesMut::new()
}

/// Relies on `bytes::BytesMut::extend_from_slice`: appends the given bytes
/// to the end of the buffer.
#[verifier::external_body]
pub(crate) fn bytes_extend(b: &mut BytesMut, s: &[u8])
    ensures
        bytes_view(*final(b)) == bytes_view(*old(b)) + s@,
{
    b.extend_from_slice(s)
}

/// Relies on `<bytes::BytesMut as AsRef<[u8]>>::as_ref`: exposes exactly the
/// bytes the buffer holds.
#[verifier::external_body]
pub(crate) fn bytes_as_slice(b: &BytesMut) -> (r: &[u8])
    ensures
        r@ == bytes_view(*b),
{
    b.as_ref()
}

} // verus!
