//! The structured error that is delivered to a requester in place of a result.

use vstd::prelude::*;
use vstd::string::StringExecFns;

verus! {

/// Status code of a reply to a request whose payload could not be decoded.
pub const BAD_REQUEST: usize = 400;

/// Status code of a reply to a request whose computation or encoding failed.
pub const INTERNAL_ERROR: usize = 500;

/// A failure that the requester gets to see: a human-readable status and a
/// numeric code.
#[derive(Debug, Clone, PartialEq, Eq)]
pub struct ProtocolError {
    pub status: String,
    pub code: usize,
}

/// The mathematical content of a [`ProtocolError`].
pub struct ProtocolErrorView {
    pub status: Seq<char>,
    pub code: nat,
}

impl View for ProtocolError {
    type V = ProtocolErrorView;

    open spec fn view(&self) -> ProtocolErrorView {
        ProtocolErrorView { status: self.status@, code: self.code as nat }
    }
}

/// What the requester is told when the payload does not decode.
pub open spec fn decode_failure(detail: Seq<char>) -> ProtocolErrorView {
    ProtocolErrorView { status: "failed to deserialize request body: "@ + detail, code: 400 }
}

/// What the requester is told when the computation fails.
pub open spec fn compute_failure(detail: Seq<char>) -> ProtocolErrorView {
    ProtocolErrorView { status: "failed to compute: "@ + detail, code: 500 }
}

/// What the requester is told when the result does not encode.
pub open spec fn encode_failure(detail: Seq<char>) -> ProtocolErrorView {
    ProtocolErrorView { status: "failed to serialize response body: "@ + detail, code: 500 }
}

impl ProtocolError {
    /// The error for a payload that failed to decode, `detail` being the
    /// decoder's own message.
    pub fn decode_failure(detail: &str) -> (e: ProtocolError)
        ensures
            e@ == decode_failure(detail@),
    {
        let status = String::from_str("failed to deserialize request body: ").concat(detail);
        ProtocolError { status, code: BAD_REQUEST }
    }

    /// The error for a computation that failed, `detail` being the handler's
    /// own message.
    pub fn compute_failure(detail: &str) -> (e: ProtocolError)
        ensures
            e@ == compute_failure(detail@),
    {
        let status = String::from_str("failed to compute: ").concat(detail);
        ProtocolError { status, code: INTERNAL_ERROR }
    }

    /// The error for a result that failed to encode, `detail` being the
    /// encoder's own message.
    pub fn encode_failure(detail: &str) -> (e: ProtocolError)
        ensures
            e@ == encode_failure(detail@),
    {
        let status = String::from_str("failed to serialize response body: ").concat(detail);
        ProtocolError { status, code: INTERNAL_ERROR }
    }
}

} // verus!
