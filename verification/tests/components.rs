//! Component-level tests: identifier management, envelope rendering checked
//! against a real JSON parser, the concurrency gate, and reply decoding.

use jsonrpc_http_client::client::HttpClientBuilder;
use jsonrpc_http_client::envelope::{render_notification, render_request, BatchEntry};
use jsonrpc_http_client::errors::RpcError;
use jsonrpc_http_client::gate::ConcurrencyGate;
use jsonrpc_http_client::ids::{id_text, Id, IdKind, IdManager};
use jsonrpc_http_client::reply::{decode_reply, ReplyPayload};

#[test]
fn identifiers_are_fresh_and_monotonic() {
    let mut mgr = IdManager::new(IdKind::Number);
    assert_eq!(mgr.next_request_id().unwrap(), Id::Num(0));
    assert_eq!(mgr.next_request_id().unwrap(), Id::Num(1));
    assert_eq!(mgr.next_request_id().unwrap(), Id::Num(2));
}

#[test]
fn text_identifiers_render_the_counter() {
    let mut mgr = IdManager::new(IdKind::Text);
    assert_eq!(mgr.next_request_id().unwrap(), Id::Text(b"0".to_vec()));
    assert_eq!(mgr.next_request_id().unwrap(), Id::Text(b"1".to_vec()));
}

#[test]
fn batch_range_has_exactly_n_contiguous_values() {
    let mut mgr = IdManager::new(IdKind::Number);
    mgr.next_request_id().unwrap();
    let range = mgr.allocate_range(4).unwrap();
    assert_eq!((range.start, range.end), (1, 5));
    assert_eq!(range.end - range.start, 4);
    // The next single identifier comes after the reserved range.
    assert_eq!(mgr.next_request_id().unwrap(), Id::Num(5));
}

#[test]
fn identifier_exhaustion_is_reported_not_wrapped() {
    let mut mgr = IdManager { kind: IdKind::Number, counter: u64::MAX };
    assert_eq!(mgr.next_request_id().unwrap_err(), RpcError::RangeOverflow);
    assert_eq!(mgr.counter, u64::MAX);

    let mut mgr = IdManager { kind: IdKind::Number, counter: u64::MAX - 1 };
    assert_eq!(mgr.allocate_range(2).unwrap_err(), RpcError::RangeOverflow);
    assert_eq!(mgr.counter, u64::MAX - 1);
    assert_eq!((mgr.allocate_range(1).unwrap().start), u64::MAX - 1);
}

#[test]
fn id_text_renders_numbers_and_strings() {
    assert_eq!(id_text(&Id::Num(2)), b"2".to_vec());
    assert_eq!(id_text(&Id::Num(1234567890)), b"1234567890".to_vec());
    assert_eq!(id_text(&Id::Text(b"abc".to_vec())), b"abc".to_vec());
}

#[test]
fn request_envelope_is_exact() {
    let payload = render_request(
        &Id::Num(7),
        b"state_call",
        &Some(b"[\"x\",{\"k\":2}]".to_vec()),
    );
    assert_eq!(
        payload,
        b"{\"jsonrpc\":\"2.0\",\"id\":7,\"method\":\"state_call\",\"params\":[\"x\",{\"k\":2}]}"
            .to_vec()
    );
}

#[test]
fn notification_envelope_has_no_id() {
    let payload = render_notification(b"ping", &None);
    assert_eq!(payload, b"{\"jsonrpc\":\"2.0\",\"method\":\"ping\"}".to_vec());
}

#[test]
fn method_escaping_is_exact() {
    let payload = render_request(&Id::Num(1), b"a\"b\\c\x01d", &None);
    assert_eq!(
        payload,
        b"{\"jsonrpc\":\"2.0\",\"id\":1,\"method\":\"a\\\"b\\\\c\\u0001d\"}".to_vec()
    );
}

#[test]
fn largest_identifier_renders_exactly() {
    assert_eq!(
        id_text(&Id::Num(u64::MAX)),
        b"18446744073709551615".to_vec()
    );
}

#[test]
fn rendered_request_parses_back_identically() {
    // The round trip checked against a real, independent JSON parser,
    // including a method that needs escaping.
    let method = "odd \"name\" with \\ and \x01 control";
    let params = b"{\"a\":[1,2,3]}".to_vec();
    let payload = render_request(&Id::Num(33), method.as_bytes(), &Some(params.clone()));
    let v: serde_json::Value = serde_json::from_slice(&payload).unwrap();
    assert_eq!(v.get("jsonrpc").unwrap().as_str().unwrap(), "2.0");
    assert_eq!(v.get("id").unwrap().as_u64().unwrap(), 33);
    assert_eq!(v.get("method").unwrap().as_str().unwrap(), method);
    let parsed_params = serde_json::to_vec(v.get("params").unwrap()).unwrap();
    assert_eq!(parsed_params, params);
}

#[test]
fn rendered_text_identifier_parses_back_identically() {
    let payload = render_request(&Id::Text(b"q\"uote".to_vec()), b"m", &None);
    let v: serde_json::Value = serde_json::from_slice(&payload).unwrap();
    assert_eq!(v.get("id").unwrap().as_str().unwrap(), "q\"uote");
    assert_eq!(v.get("method").unwrap().as_str().unwrap(), "m");
    assert!(v.get("params").is_none());
}

#[test]
fn rendered_batch_parses_back_in_order() {
    let mut client = HttpClientBuilder::new().build();
    let entries = vec![
        BatchEntry { method: b"one".to_vec(), params: Some(b"[1]".to_vec()) },
        BatchEntry { method: b"two".to_vec(), params: None },
    ];
    let (range, payload) = client.prepare_batch(&entries).unwrap();
    let v: serde_json::Value = serde_json::from_slice(&payload).unwrap();
    let arr = v.as_array().unwrap();
    assert_eq!(arr.len(), 2);
    assert_eq!(arr[0].get("id").unwrap().as_u64().unwrap(), range.start);
    assert_eq!(arr[0].get("method").unwrap().as_str().unwrap(), "one");
    assert_eq!(arr[1].get("id").unwrap().as_u64().unwrap(), range.start + 1);
    assert_eq!(arr[1].get("method").unwrap().as_str().unwrap(), "two");
}

#[test]
fn batches_are_integer_identified_even_under_text_id_kind() {
    let mut client = HttpClientBuilder::new().id_format(IdKind::Text).build();
    let entries = vec![
        BatchEntry { method: b"a".to_vec(), params: None },
        BatchEntry { method: b"b".to_vec(), params: None },
    ];
    let (range, payload) = client.prepare_batch(&entries).unwrap();
    assert_eq!((range.start, range.end), (0, 2));
    let v: serde_json::Value = serde_json::from_slice(&payload).unwrap();
    let arr = v.as_array().unwrap();
    // Range arithmetic needs ordinal identifiers: JSON numbers, not strings.
    assert!(arr[0].get("id").unwrap().is_u64());
    assert!(arr[1].get("id").unwrap().is_u64());
    // Single calls on the same client keep drawing string identifiers from
    // the same counter, after the reserved range.
    let (id, _) = client.prepare_request(b"c", &None).unwrap();
    assert_eq!(id, Id::Text(b"2".to_vec()));
}

#[test]
fn gate_admits_at_most_the_bound() {
    let mut gate = ConcurrencyGate::new(Some(2));
    assert!(gate.try_acquire());
    assert!(gate.try_acquire());
    // The third concurrent operation is refused until a permit returns.
    assert!(!gate.try_acquire());
    assert_eq!(gate.in_flight, 2);
    gate.release();
    assert!(gate.try_acquire());
    assert!(!gate.try_acquire());
}

#[test]
fn unbounded_gate_admits_everything() {
    let mut gate = ConcurrencyGate::new(None);
    for _ in 0..100 {
        assert!(gate.try_acquire());
    }
    assert_eq!(gate.in_flight, 0);
}

#[test]
fn builder_defaults_match_convention() {
    let b = HttpClientBuilder::new();
    assert_eq!(b.max_request_size, 10 * 1024 * 1024);
    assert_eq!(b.max_response_size, 10 * 1024 * 1024);
    assert_eq!(b.request_timeout_ms, 60_000);
    assert_eq!(b.id_kind, IdKind::Number);
    assert_eq!(b.max_log_length, 4096);
    assert!(b.headers.is_empty());
    assert!(b.tcp_no_delay);
    assert_eq!(b.max_concurrent_requests, None);
    assert_eq!(HttpClientBuilder::default(), HttpClientBuilder::new());
}

#[test]
fn builder_options_reach_the_client() {
    let client = HttpClientBuilder::new()
        .max_request_size(1)
        .max_response_size(2)
        .request_timeout(3)
        .max_concurrent_requests(4)
        .id_format(IdKind::Text)
        .set_max_logging_length(5)
        .set_headers(vec![(b"k".to_vec(), b"v".to_vec())])
        .set_tcp_no_delay(false)
        .build();
    assert_eq!(client.max_request_size, 1);
    assert_eq!(client.max_response_size, 2);
    assert_eq!(client.request_timeout_ms, 3);
    assert_eq!(client.gate.limit, Some(4));
    assert_eq!(client.id_manager.kind, IdKind::Text);
    assert_eq!(client.max_log_length, 5);
    assert_eq!(client.headers, vec![(b"k".to_vec(), b"v".to_vec())]);
    assert!(!client.tcp_no_delay);
}

#[test]
fn malformed_reply_bodies_are_parse_errors() {
    assert!(matches!(decode_reply(b"not json"), Err(RpcError::Parse(_))));
    assert!(matches!(decode_reply(b"{}"), Err(RpcError::Parse(_))));
    // Wrong version tag.
    assert!(matches!(
        decode_reply(b"{\"jsonrpc\":\"1.0\",\"id\":1,\"result\":4}"),
        Err(RpcError::Parse(_))
    ));
    // Neither result nor error.
    assert!(matches!(
        decode_reply(b"{\"jsonrpc\":\"2.0\",\"id\":1}"),
        Err(RpcError::Parse(_))
    ));
    // A reply envelope without an id member, or with one that is not an
    // integer, a string or null, does not decode.
    assert!(matches!(
        decode_reply(b"{\"jsonrpc\":\"2.0\",\"result\":4}"),
        Err(RpcError::Parse(_))
    ));
    assert!(matches!(
        decode_reply(b"{\"jsonrpc\":\"2.0\",\"id\":1.5,\"result\":4}"),
        Err(RpcError::Parse(_))
    ));
}

#[test]
fn error_reply_data_is_kept_as_raw_json() {
    let reply = decode_reply(
        b"{\"jsonrpc\":\"2.0\",\"id\":1,\"error\":{\"code\":5,\"message\":\"m\",\"data\":[1,2]}}",
    )
    .unwrap();
    match reply.payload {
        ReplyPayload::Failure(e) => {
            assert_eq!(e.code, 5);
            assert_eq!(e.message, b"m".to_vec());
            assert_eq!(e.data, Some(b"[1,2]".to_vec()));
        }
        other => panic!("expected a failure payload, got {other:?}"),
    }
}

#[test]
fn success_payload_is_the_json_layers_re_rendering() {
    // The raw text handed out is the parsed value re-rendered (object keys
    // sorted, no whitespace), not the server's original byte span.
    let reply = decode_reply(
        b"{\"jsonrpc\":\"2.0\",\"id\":1,\"result\":{\"b\": 1, \"a\": 2}}",
    )
    .unwrap();
    match reply.payload {
        ReplyPayload::Success(raw) => assert_eq!(raw, b"{\"a\":2,\"b\":1}".to_vec()),
        other => panic!("expected a success payload, got {other:?}"),
    }
}

#[test]
fn error_code_must_fit_a_signed_integer() {
    // u64::MAX as a code does not fit an i64: the envelope does not decode.
    assert!(matches!(
        decode_reply(
            b"{\"jsonrpc\":\"2.0\",\"id\":1,\"error\":{\"code\":18446744073709551615,\"message\":\"m\"}}",
        ),
        Err(RpcError::Parse(_))
    ));
}

#[test]
fn null_and_string_reply_identifiers_decode() {
    let reply = decode_reply(b"{\"jsonrpc\":\"2.0\",\"id\":null,\"result\":1}").unwrap();
    assert_eq!(reply.id, None);
    let reply = decode_reply(b"{\"jsonrpc\":\"2.0\",\"id\":\"7\",\"result\":1}").unwrap();
    assert_eq!(reply.id, Some(Id::Text(b"7".to_vec())));
}
