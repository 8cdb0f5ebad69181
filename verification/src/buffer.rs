//! Byte buffers of the `bytes` crate, as the stages hand them to each other.
//!
//! A `Bytes` value is opaque to the verifier. What it holds is named by
//! [`bytes_view`], and the functions below are believed, not proved, to relate
//! that name to the buffers they take and return.

use bytes::Bytes;
use vstd::prelude::*;

verus! {

/// `bytes::Bytes`: a byte buffer, opaque to the verifier.
#[verifier::external_type_specification]
#[verifier::external_body]
pub struct ExBytes(Bytes);

/// The bytes that a buffer holds, in order.
pub uninterp spec fn bytes_view(buffer: Bytes) -> Seq<u8>;

/// `Bytes::from(Vec<u8>)`: the buffer holds what the vector held.
#[verifier::external_body]
pub(crate) fn bytes_from_vec(data: Vec<u8>) -> (buffer: Bytes)
    ensures
        bytes_view(buffer) == data@,
{
    Bytes::from(data)
}

/// `<Bytes as AsRef<[u8]>>::as_ref`: the slice is what the buffer holds.
#[verifier::external_body]
pub(crate) fn bytes_as_slice(buffer: &Bytes) -> (slice: &[u8])
    ensures
        slice@ == bytes_view(*buffer),
{
    buffer.as_ref()
}

} // verus!
