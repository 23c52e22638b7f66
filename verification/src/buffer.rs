//! Shared byte buffers.
//!
//! Frames and packets carry their payload in a [`bytes::Bytes`], so that a payload can be cut out
//! of a packet without copying it.
use bytes::Bytes;
use vstd::prelude::*;

verus! {

/// The buffer type of the `bytes` crate.
#[verifier::external_type_specification]
#[verifier::external_body]
pub struct ExBytes(bytes::Bytes);

/// The bytes that a buffer holds.
pub uninterp spec fn content(b: Bytes) -> Seq<u8>;

/// `Bytes::clone`: another handle to the same bytes.
pub assume_specification[ <Bytes as Clone>::clone ](b: &Bytes) -> (r: Bytes)
    ensures
        content(r) == content(*b),
;

/// `Bytes::from(Vec<u8>)`: the buffer takes over the vector's memory and holds its bytes.
#[verifier::external_body]
pub(crate) fn from_vec(v: Vec<u8>) -> (r: Bytes)
    ensures
        content(r) == v@,
{
    Bytes::from(v)
}

/// `Bytes::as_ref`: the bytes of the buffer as a slice.
#[verifier::external_body]
pub(crate) fn as_slice(b: &Bytes) -> (r: &[u8])
    ensures
        r@ == content(*b),
{
    b.as_ref()
}

/// `Bytes::slice` with an open end: a buffer over the bytes from `start` on. It panics when
/// `start` lies beyond the end.
#[verifier::external_body]
pub(crate) fn slice_from(b: &Bytes, start: usize) -> (r: Bytes)
    requires
        start <= content(*b).len(),
    ensures
        content(r) == content(*b).skip(start as int),
{
    b.slice(start..)
}

} // verus!
