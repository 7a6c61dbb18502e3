//! The decoder's receive buffer, a `bytes::BytesMut`, and the few of its
//! operations that the decoder uses.
use vstd::prelude::*;

verus! {

#[verifier::external_type_specification]
#[verifier::external_body]
pub struct ExBytesMut(bytes::BytesMut);

/// The bytes that a buffer holds, front first.
pub uninterp spec fn buffered(b: bytes::BytesMut) -> Seq<u8>;

/// Relies on BytesMut::new: a new buffer holds no bytes.
#[verifier::external_body]
pub(crate) fn buffer_new() -> (r: bytes::BytesMut)
    ensures
        buffered(r) == Seq::<u8>::empty(),
{
    bytes::BytesMut::new()
}

/// Relies on BytesMut::len: the number of bytes held.
#[verifier::external_body]
pub(crate) fn buffer_len(b: &bytes::BytesMut) -> (r: usize)
    ensures
        r == buffered(*b).len(),
{
    b.len()
}

/// Relies on BytesMut::extend_from_slice: appends `data` at the back. It
/// panics when the new length overflows, which `requires` leaves out.
#[verifier::external_body]
pub(crate) fn buffer_append(b: &mut bytes::BytesMut, data: &[u8])
    requires
        buffered(*old(b)).len() + data@.len() <= isize::MAX,
    ensures
        buffered(*final(b)) == buffered(*old(b)) + data@,
{
    b.extend_from_slice(data)
}

/// Relies on BytesMut's `Deref` to `[u8]`: the byte at index `i`.
#[verifier::external_body]
pub(crate) fn buffer_byte(b: &bytes::BytesMut, i: usize) -> (r: u8)
    requires
        i < buffered(*b).len(),
    ensures
        r == buffered(*b)[i as int],
{
    b[i]
}

/// Relies on `Buf::advance` for BytesMut: drops the first `n` bytes. It
/// panics when `n` exceeds the length, which `requires` leaves out.
#[verifier::external_body]
pub(crate) fn buffer_advance(b: &mut bytes::BytesMut, n: usize)
    requires
        n <= buffered(*old(b)).len(),
    ensures
        buffered(*final(b)) == buffered(*old(b)).subrange(n as int, buffered(*old(b)).len() as int),
{
    bytes::Buf::advance(b, n)
}

} // verus!
