//! The growing download buffer, held in a `bytes::BytesMut`.
use bytes::BytesMut;
use vstd::prelude::*;

verus! {

#[verifier::external_type_specification]
#[verifier::external_body]
pub struct ExBytesMut(BytesMut);

/// The bytes a buffer holds, in order.
pub uninterp spec fn buffer_contents(b: BytesMut) -> Seq<u8>;

/// The most bytes a download buffer may hold. Growth doubles the
/// allocation, which must stay within `isize::MAX`.
pub open spec fn buffer_limit() -> int {
    isize::MAX as int / 4
}

/// Relies on `BytesMut::new`: a buffer that holds nothing.
#[verifier::external_body]
pub(crate) fn new_buffer() -> (r: BytesMut)
    ensures
        buffer_contents(r) == Seq::<u8>::empty(),
{
    BytesMut::new()
}

/// Relies on `BytesMut::extend_from_slice`: the slice is appended at the end.
/// It panics only when the grown allocation would overflow, which the bound
/// rules out.
#[verifier::external_body]
pub(crate) fn append_bytes(b: &mut BytesMut, chunk: &[u8])
    requires
        buffer_contents(*old(b)).len() + chunk@.len() <= buffer_limit(),
    ensures
        buffer_contents(*final(b)) == buffer_contents(*old(b)) + chunk@,
{
    b.extend_from_slice(chunk)
}

/// Relies on `BytesMut::len`: the number of bytes held.
#[verifier::external_body]
pub(crate) fn buffer_len(b: &BytesMut) -> (r: usize)
    ensures
        r == buffer_contents(*b).len(),
{
    b.len()
}

/// Relies on `BytesMut::as_ref`: the bytes held, as a slice.
#[verifier::external_body]
pub(crate) fn buffer_bytes(b: &BytesMut) -> (r: &[u8])
    ensures
        r@ == buffer_contents(*b),
{
    b.as_ref()
}

} // verus!
