//! The client facade: flat configuration via a builder, one identifier
//! manager and one concurrency gate shared by all calls, the assembly of
//! outbound payloads, and the mapping of transport outcomes into the error
//! taxonomy. The byte transport itself (connections, headers, TLS,
//! middleware) lives outside this layer; callers run it and hand its
//! outcome back as a plain value.

use vstd::prelude::*;

use crate::envelope::{
    opt_bytes, render_batch, render_notification, render_request, spec_batch_reqs,
    spec_render_batch, spec_render_notification, spec_render_request, BatchEntry,
};
use crate::errors::{RpcError, RpcErrorV};
use crate::gate::ConcurrencyGate;
use crate::ids::{Id, IdKind, IdManager, IdRange, spec_make_id};

verus! {

/// Builds a client from a flat set of named options; every option has the
/// conventional default.
#[derive(Debug, Clone, PartialEq, Eq)]
pub struct HttpClientBuilder {
    pub max_request_size: u32,
    pub max_response_size: u32,
    pub request_timeout_ms: u64,
    pub id_kind: IdKind,
    pub max_log_length: u32,
    pub headers: Vec<(Vec<u8>, Vec<u8>)>,
    pub tcp_no_delay: bool,
    pub max_concurrent_requests: Option<u64>,
}

/// The defaults: ten-mebibyte request and response bodies, a sixty second
/// timeout, numeric identifiers, four-kibibyte log truncation, no custom
/// headers, `TCP_NODELAY` on, and no concurrency bound.
pub open spec fn spec_default_builder(b: HttpClientBuilder) -> bool {
    &&& b.max_request_size == 10485760u32
    &&& b.max_response_size == 10485760u32
    &&& b.request_timeout_ms == 60000u64
    &&& b.id_kind == IdKind::Number
    &&& b.max_log_length == 4096u32
    &&& b.headers@ == Seq::<(Vec<u8>, Vec<u8>)>::empty()
    &&& b.tcp_no_delay == true
    &&& b.max_concurrent_requests is None
}

impl HttpClientBuilder {
    /// A new builder holding every default.
    pub fn new() -> (r: Self)
        ensures
            spec_default_builder(r),
    {
        let headers: Vec<(Vec<u8>, Vec<u8>)> = Vec::new();
        assert(headers@ =~= Seq::<(Vec<u8>, Vec<u8>)>::empty());
        HttpClientBuilder {
            max_request_size: 10485760,
            max_response_size: 10485760,
            request_timeout_ms: 60000,
            id_kind: IdKind::Number,
            max_log_length: 4096,
            headers,
            tcp_no_delay: true,
            max_concurrent_requests: None,
        }
    }

    /// Set the maximum size of a request body in bytes.
    pub fn max_request_size(self, size: u32) -> (r: Self)
        ensures
            r == (HttpClientBuilder { max_request_size: size, ..self }),
    {
        HttpClientBuilder { max_request_size: size, ..self }
    }

    /// Set the maximum size of a response body in bytes.
    pub fn max_response_size(self, size: u32) -> (r: Self)
        ensures
            r == (HttpClientBuilder { max_response_size: size, ..self }),
    {
        HttpClientBuilder { max_response_size: size, ..self }
    }

    /// Set the per-call timeout, in milliseconds.
    pub fn request_timeout(self, timeout_ms: u64) -> (r: Self)
        ensures
            r == (HttpClientBuilder { request_timeout_ms: timeout_ms, ..self }),
    {
        HttpClientBuilder { request_timeout_ms: timeout_ms, ..self }
    }

    /// Bound the number of concurrent protocol operations.
    pub fn max_concurrent_requests(self, bound: u64) -> (r: Self)
        ensures
            r == (HttpClientBuilder { max_concurrent_requests: Some(bound), ..self }),
    {
        HttpClientBuilder { max_concurrent_requests: Some(bound), ..self }
    }

    /// Configure the shape of single-call request identifiers.
    pub fn id_format(self, id_kind: IdKind) -> (r: Self)
        ensures
            r == (HttpClientBuilder { id_kind: id_kind, ..self }),
    {
        HttpClientBuilder { id_kind, ..self }
    }

    /// Truncation length for request and response logging.
    pub fn set_max_logging_length(self, max: u32) -> (r: Self)
        ensures
            r == (HttpClientBuilder { max_log_length: max, ..self }),
    {
        HttpClientBuilder { max_log_length: max, ..self }
    }

    /// Custom headers sent with every request; checking for conflicts or
    /// duplicates is the caller's concern.
    pub fn set_headers(self, headers: Vec<(Vec<u8>, Vec<u8>)>) -> (r: Self)
        ensures
            r == (HttpClientBuilder { headers: headers, ..self }),
    {
        HttpClientBuilder { headers, ..self }
    }

    /// Configure `TCP_NODELAY` on the socket.
    pub fn set_tcp_no_delay(self, no_delay: bool) -> (r: Self)
        ensures
            r == (HttpClientBuilder { tcp_no_delay: no_delay, ..self }),
    {
        HttpClientBuilder { tcp_no_delay: no_delay, ..self }
    }

    /// Builds the protocol core of a client: a fresh identifier manager of
    /// the configured kind, a fresh gate under the configured bound, and the
    /// remaining options carried for the transport around this layer.
    pub fn build(self) -> (r: HttpClient)
        ensures
            r.id_manager.kind == self.id_kind,
            r.id_manager.counter == 0,
            r.gate.limit == self.max_concurrent_requests,
            r.gate.in_flight == 0,
            r.gate.well_formed(),
            r.request_timeout_ms == self.request_timeout_ms,
            r.max_request_size == self.max_request_size,
            r.max_response_size == self.max_response_size,
            r.max_log_length == self.max_log_length,
            r.headers == self.headers,
            r.tcp_no_delay == self.tcp_no_delay,
    {
        HttpClient {
            id_manager: IdManager::new(self.id_kind),
            gate: ConcurrencyGate::new(self.max_concurrent_requests),
            request_timeout_ms: self.request_timeout_ms,
            max_request_size: self.max_request_size,
            max_response_size: self.max_response_size,
            max_log_length: self.max_log_length,
            headers: self.headers,
            tcp_no_delay: self.tcp_no_delay,
        }
    }
}

impl Default for HttpClientBuilder {
    /// Same as [`HttpClientBuilder::new`].
    fn default() -> (r: Self)
        ensures
            spec_default_builder(r),
    {
        HttpClientBuilder::new()
    }
}

/// How one transport exchange ended, as the caller running the transport
/// reports it: the reply body arrived in time, the transport failed, or the
/// per-call deadline elapsed first. A timed-out exchange carries no body by
/// construction — whatever the transport might still produce is discarded.
#[derive(Debug, Clone, PartialEq, Eq)]
pub enum TransportOutcome {
    Completed(Vec<u8>),
    Failed(Vec<u8>),
    TimedOut,
}

/// Maps a transport outcome into the error taxonomy: a timeout is a
/// `Timeout` error (never a late result), a transport failure is surfaced
/// wrapped, and a completed exchange hands its body on, exactly.
pub fn settle_transport(outcome: TransportOutcome) -> (r: Result<Vec<u8>, RpcError>)
    ensures
        match outcome {
            TransportOutcome::Completed(body) => r matches Ok(b) && b@ == body@,
            TransportOutcome::Failed(m) => r matches Err(e) && e@ == RpcErrorV::Transport(m@),
            TransportOutcome::TimedOut => r matches Err(e) && e@ == RpcErrorV::Timeout,
        },
{
    match outcome {
        TransportOutcome::Completed(body) => Ok(body),
        TransportOutcome::Failed(m) => Err(RpcError::Transport(m)),
        TransportOutcome::TimedOut => Err(RpcError::Timeout),
    }
}

/// A subscription handle. Subscriptions are unsupported over this
/// request/reply transport by design, so no value of this type is ever
/// produced; the type only mirrors the shape of the subscription entry
/// points.
#[derive(Debug, Clone, Copy, PartialEq, Eq, Structural)]
pub struct Subscription {}

/// The protocol core of a JSON-RPC client over a request/reply transport:
/// the identifier manager and concurrency gate shared by every call made
/// through one client, and the flat configuration the surrounding transport
/// consumes.
#[derive(Debug)]
pub struct HttpClient {
    pub id_manager: IdManager,
    pub gate: ConcurrencyGate,
    pub request_timeout_ms: u64,
    pub max_request_size: u32,
    pub max_response_size: u32,
    pub max_log_length: u32,
    pub headers: Vec<(Vec<u8>, Vec<u8>)>,
    pub tcp_no_delay: bool,
}

impl HttpClient {
    /// A builder holding every default.
    pub fn builder() -> (r: HttpClientBuilder)
        ensures
            spec_default_builder(r),
    {
        HttpClientBuilder::new()
    }

    /// The configuration other than the identifier manager and the admission state.
    pub open spec fn config_unchanged(&self, other: &Self) -> bool {
        &&& self.request_timeout_ms == other.request_timeout_ms
        &&& self.max_request_size == other.max_request_size
        &&& self.max_response_size == other.max_response_size
        &&& self.max_log_length == other.max_log_length
        &&& self.headers == other.headers
        &&& self.tcp_no_delay == other.tcp_no_delay
    }

    /// Serializes a notification envelope for `method`: no identifier is
    /// allocated and none is consumed — a notification expects no reply.
    pub fn prepare_notification(&self, method: &[u8], params: &Option<Vec<u8>>) -> (r: Vec<u8>)
        ensures
            r@ == spec_render_notification(method@, opt_bytes(*params)),
    {
        render_notification(method, params)
    }

    /// Obtains one fresh identifier and serializes the request envelope for
    /// `method` under it. Fails only when the identifier space is exhausted,
    /// leaving the client unchanged.
    pub fn prepare_request(&mut self, method: &[u8], params: &Option<Vec<u8>>) -> (r: Result<
        (Id, Vec<u8>),
        RpcError,
    >)
        ensures
            final(self).config_unchanged(old(self)),
            final(self).gate == old(self).gate,
            final(self).id_manager.kind == old(self).id_manager.kind,
            old(self).id_manager.counter < u64::MAX ==> (r matches Ok(p) && p.0@ == spec_make_id(
                old(self).id_manager.kind,
                old(self).id_manager.counter,
            ) && p.1@ == spec_render_request(p.0@, method@, opt_bytes(*params)) && final(self).id_manager.counter == old(self).id_manager.counter + 1),
            old(self).id_manager.counter == u64::MAX ==> (r matches Err(e) && e@
                == RpcErrorV::RangeOverflow && final(self).id_manager.counter == old(self).id_manager.counter),
    {
        let id = match self.id_manager.next_request_id() {
            Ok(id) => id,
            Err(e) => {
                return Err(e);
            },
        };
        let payload = render_request(&id, method, params);
        Ok((id, payload))
    }

    /// Reserves a contiguous identifier range for a non-empty batch and
    /// serializes the whole batch as one JSON array, entry `i` under
    /// identifier `range.start + i`, original order preserved. Fails only
    /// when the identifier space cannot hold the range, leaving the client
    /// unchanged; no partial batch is ever produced.
    pub fn prepare_batch(&mut self, entries: &Vec<BatchEntry>) -> (r: Result<
        (IdRange, Vec<u8>),
        RpcError,
    >)
        requires
            entries@.len() >= 1,
            entries@.len() <= u64::MAX,
        ensures
            final(self).config_unchanged(old(self)),
            final(self).gate == old(self).gate,
            final(self).id_manager.kind == old(self).id_manager.kind,
            old(self).id_manager.counter + entries@.len() <= u64::MAX ==> (r matches Ok(p) && (
            p.0.start == old(self).id_manager.counter && p.0.end == old(self).id_manager.counter
                + entries@.len() && p.1@ == spec_render_batch(
                spec_batch_reqs(entries@, p.0.start),
            ) && final(self).id_manager.counter == old(self).id_manager.counter
                + entries@.len())),
            old(self).id_manager.counter + entries@.len() > u64::MAX ==> (r matches Err(e) && e@
                == RpcErrorV::RangeOverflow && final(self).id_manager.counter == old(self).id_manager.counter),
    {
        let count = entries.len() as u64;
        let range = match self.id_manager.allocate_range(count) {
            Ok(g) => g,
            Err(e) => {
                return Err(e);
            },
        };
        let payload = render_batch(entries, range.start);
        Ok((range, payload))
    }

    /// Answers a subscribe-style call: immediately unsupported over this
    /// request/reply transport, for every input — no serialization, no
    /// identifier allocation, no gate acquisition, no transport exchange
    /// (the client is not even mutably touched).
    pub fn subscribe(
        &self,
        subscribe_method: &[u8],
        params: &Option<Vec<u8>>,
        unsubscribe_method: &[u8],
    ) -> (r: Result<Subscription, RpcError>)
        ensures
            r matches Err(e) && e@ == RpcErrorV::Unsupported,
    {
        Err(RpcError::Unsupported)
    }

    /// Answers a subscribe-to-method call: immediately unsupported, exactly
    /// as [`HttpClient::subscribe`].
    pub fn subscribe_to_method(&self, method: &[u8]) -> (r: Result<Subscription, RpcError>)
        ensures
            r matches Err(e) && e@ == RpcErrorV::Unsupported,
    {
        Err(RpcError::Unsupported)
    }
}

} // verus!
