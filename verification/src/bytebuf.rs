//! A trusted view of `bytes::BytesMut`, the growable byte buffer behind the
//! buffering layer. `bview` names a buffer's contents as a sequence of bytes;
//! each wrapper states over that name what the operation it relies on does.

use vstd::prelude::*;

use bytes::Buf;
use bytes::BytesMut;

verus! {

#[verifier::external_type_specification]
#[verifier::external_body]
pub struct ExBytesMut(BytesMut);

/// The bytes a buffer currently holds, oldest first.
pub uninterp spec fn bview(b: BytesMut) -> Seq<u8>;

/// Relies on bytes::BytesMut::new: a fresh buffer holds nothing.
#[verifier::external_body]
pub(crate) fn buf_new() -> (r: BytesMut)
    ensures
        bview(r) == Seq::<u8>::empty(),
{
    BytesMut::new()
}

/// Relies on bytes::BytesMut::len: the number of bytes held.
#[verifier::external_body]
pub(crate) fn buf_len(b: &BytesMut) -> (r: usize)
    ensures
        r == bview(*b).len(),
{
    b.len()
}

/// Relies on bytes::BytesMut::extend_from_slice: appends the given bytes
/// after the ones already held.
#[verifier::external_body]
pub(crate) fn buf_put(b: &mut BytesMut, data: &[u8])
    ensures
        bview(*final(b)) == bview(*old(b)) + data@,
{
    b.extend_from_slice(data)
}

/// Relies on bytes::Buf::advance for BytesMut: discards the first `cnt`
/// bytes. advance panics when `cnt` exceeds the length, so that is excluded.
#[verifier::external_body]
pub(crate) fn buf_advance(b: &mut BytesMut, cnt: usize)
    requires
        cnt <= bview(*old(b)).len(),
    ensures
        bview(*final(b)) == bview(*old(b)).skip(cnt as int),
{
    b.advance(cnt)
}

/// Relies on range indexing into bytes::BytesMut (through its view as a byte
/// slice) and slice::to_vec: copies out the first `len` bytes.
#[verifier::external_body]
pub(crate) fn buf_prefix(b: &BytesMut, len: usize) -> (r: Vec<u8>)
    requires
        len <= bview(*b).len(),
    ensures
        r@ == bview(*b).take(len as int),
{
    b[..len].to_vec()
}

/// Relies on slice::to_vec through the byte-slice view of bytes::BytesMut:
/// copies out every byte held.
#[verifier::external_body]
pub(crate) fn buf_to_vec(b: &BytesMut) -> (r: Vec<u8>)
    ensures
        r@ == bview(*b),
{
    b.to_vec()
}

} // verus!
