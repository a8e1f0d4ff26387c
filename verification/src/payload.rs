//! Byte payloads held in a `bytes::Bytes`, seen through the bytes they hold.

use bytes::Bytes;
use vstd::prelude::*;

verus! {

/// `bytes::Bytes`, a cheaply cloneable and sliceable chunk of memory.
#[verifier::external_type_specification]
#[verifier::external_body]
pub struct ExBytes(Bytes);

/// The sequence of bytes that a `Bytes` holds.
pub uninterp spec fn bytes_contents(b: Bytes) -> Seq<u8>;

/// `Bytes::from(Vec<u8>)`: the result holds exactly the bytes of the vector
/// (the vector's buffer is taken over, its contents unchanged).
#[verifier::external_body]
pub(crate) fn bytes_from_vec(v: Vec<u8>) -> (b: Bytes)
    ensures
        bytes_contents(b) == v@,
{
    Bytes::from(v)
}

/// `<[u8]>::to_vec` on the slice that `Bytes` dereferences to: a vector with
/// the same bytes.
#[verifier::external_body]
pub(crate) fn bytes_to_vec(b: &Bytes) -> (v: Vec<u8>)
    ensures
        v@ == bytes_contents(*b),
{
    b.to_vec()
}

/// `<Bytes as Clone>::clone`: a new handle on the same bytes.
#[verifier::external_body]
pub(crate) fn bytes_clone(b: &Bytes) -> (c: Bytes)
    ensures
        bytes_contents(c) == bytes_contents(*b),
{
    b.clone()
}

} // verus!
