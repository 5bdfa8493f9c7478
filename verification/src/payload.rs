//! Byte buffers of the `bytes` crate, carried through the library as
//! opaque values whose contents are known by name.
use vstd::prelude::*;

verus! {

/// `bytes::Bytes` is carried through the library without being read; its
/// fields stay hidden.
#[verifier::external_type_specification]
#[verifier::external_body]
pub struct ExBytes(bytes::Bytes);

/// The bytes that a `bytes::Bytes` buffer holds, in order.
pub uninterp spec fn bytes_contents(b: bytes::Bytes) -> Seq<u8>;

/// Wraps `<bytes::Bytes as From<Vec<u8>>>::from`: the buffer takes over the
/// vector and holds exactly its bytes, in the same order.
#[verifier::external_body]
pub fn bytes_from_vec(v: Vec<u8>) -> (b: bytes::Bytes)
    ensures
        bytes_contents(b) == v@,
{
    bytes::Bytes::from(v)
}

/// Specifies `<bytes::Bytes as Clone>::clone`: the clone shares the buffer
/// of the original, so it holds the same bytes.
pub assume_specification[ <bytes::Bytes as Clone>::clone ](b: &bytes::Bytes) -> (c: bytes::Bytes)
    ensures
        bytes_contents(c) == bytes_contents(*b),
;

} // verus!
