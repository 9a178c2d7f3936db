//! The error taxonomy of the client: every failure of a call is surfaced to
//! the immediate caller as one of these typed outcomes, never retried and
//! never swallowed.

use vstd::prelude::*;

verus! {

/// A well-formed JSON-RPC error object returned by the remote side:
/// a code, a message, and optional extra data carried as raw JSON text.
#[derive(Debug, Clone, PartialEq, Eq)]
pub struct ErrorObject {
    pub code: i64,
    pub message: Vec<u8>,
    pub data: Option<Vec<u8>>,
}

/// Specification-level image of an [`ErrorObject`].
pub struct ErrorObjectV {
    pub code: i64,
    pub message: Seq<u8>,
    pub data: Option<Seq<u8>>,
}

impl View for ErrorObject {
    type V = ErrorObjectV;

    open spec fn view(&self) -> ErrorObjectV {
        ErrorObjectV {
            code: self.code,
            message: self.message@,
            data: match self.data {
                Some(d) => Some(d@),
                None => None,
            },
        }
    }
}

/// The placeholder outcome a batch slot holds until (unless) a reply with its
/// identifier arrives.
pub open spec fn spec_slot_placeholder() -> ErrorObjectV {
    ErrorObjectV { code: 0, message: Seq::empty(), data: None }
}

impl ErrorObject {
    /// The placeholder written into every batch slot before the replies are
    /// scattered.
    pub fn slot_placeholder() -> (r: ErrorObject)
        ensures
            r@ == spec_slot_placeholder(),
    {
        let r = ErrorObject { code: 0, message: Vec::new(), data: None };
        assert(r@.message =~= spec_slot_placeholder().message);
        r
    }
}

/// Everything that can go wrong with one call.
#[derive(Debug, Clone, PartialEq, Eq)]
pub enum RpcError {
    /// The per-call deadline elapsed; the transport outcome is discarded.
    Timeout,
    /// A connection or I/O level failure, wrapped and surfaced as-is.
    Transport(Vec<u8>),
    /// An inbound payload failed to decode into the expected shape.
    Parse(Vec<u8>),
    /// A well-formed JSON-RPC error object returned by the remote side.
    Protocol(ErrorObject),
    /// The reply named an identifier this client did not send; the text is
    /// the offending identifier.
    InvalidRequestId(Vec<u8>),
    /// Subscription-style calls are unsupported over this transport.
    Unsupported,
    /// The identifier counter cannot issue the identifiers asked for.
    RangeOverflow,
}

/// Specification-level image of an [`RpcError`].
pub enum RpcErrorV {
    Timeout,
    Transport(Seq<u8>),
    Parse(Seq<u8>),
    Protocol(ErrorObjectV),
    InvalidRequestId(Seq<u8>),
    Unsupported,
    RangeOverflow,
}

impl View for RpcError {
    type V = RpcErrorV;

    open spec fn view(&self) -> RpcErrorV {
        match self {
            RpcError::Timeout => RpcErrorV::Timeout,
            RpcError::Transport(m) => RpcErrorV::Transport(m@),
            RpcError::Parse(m) => RpcErrorV::Parse(m@),
            RpcError::Protocol(e) => RpcErrorV::Protocol(e@),
            RpcError::InvalidRequestId(t) => RpcErrorV::InvalidRequestId(t@),
            RpcError::Unsupported => RpcErrorV::Unsupported,
            RpcError::RangeOverflow => RpcErrorV::RangeOverflow,
        }
    }
}

} // verus!
