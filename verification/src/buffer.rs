//! `bytes::Bytes` as the bridge sees it: an immutable run of bytes.

use bytes::Bytes;
use std::ops::Deref;
use vstd::prelude::*;

verus! {

/// `bytes::Bytes` is carried through as an opaque value; what it holds is
/// named by [`bytes_seq`].
#[verifier::external_type_specification]
#[verifier::external_body]
pub struct ExBytes(bytes::Bytes);

/// The bytes that a `Bytes` handle gives access to, first to last.
pub uninterp spec fn bytes_seq(b: Bytes) -> Seq<u8>;

/// `Bytes::len`. Trusted: it returns the number of bytes the handle gives
/// access to.
#[verifier::external_body]
pub(crate) fn bytes_len(b: &Bytes) -> (n: usize)
    ensures
        n == bytes_seq(*b).len(),
{
    b.len()
}

/// `<Bytes as Deref>::deref`. Trusted: the slice it returns holds exactly the
/// bytes of the handle, in order.
#[verifier::external_body]
pub(crate) fn bytes_as_slice(b: &Bytes) -> (s: &[u8])
    ensures
        s@ == bytes_seq(*b),
{
    b.deref()
}

/// `<Bytes as From<Vec<u8>>>::from`. Trusted: the handle it returns holds
/// exactly the bytes of the vector, in order.
#[verifier::external_body]
pub(crate) fn bytes_from_vec(v: Vec<u8>) -> (b: Bytes)
    ensures
        bytes_seq(b) == v@,
{
    Bytes::from(v)
}

} // verus!
