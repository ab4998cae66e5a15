//! Byte buffers as they arrive from and are handed to the broker.

use bytes::Bytes;
use vstd::prelude::*;

verus! {

#[verifier::external_type_specification]
#[verifier::external_body]
pub struct ExBytes(bytes::Bytes);

/// The bytes that a buffer holds, in order.
pub uninterp spec fn bytes_view(buffer: Bytes) -> Seq<u8>;

/// Copies a buffer out into a vector.
///
/// Trusted: calls `<[u8]>::to_vec` on the slice that `Bytes` dereferences to,
/// which is the buffer's whole content from its first byte to its last. The
/// contract claims that the vector holds exactly those bytes.
#[verifier::external_body]
pub(crate) fn payload_to_vec(payload: &Bytes) -> (bytes: Vec<u8>)
    ensures
        bytes@ == bytes_view(*payload),
{
    payload.to_vec()
}

} // verus!
