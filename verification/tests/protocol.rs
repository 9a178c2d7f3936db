//! End-to-end protocol scenarios: single calls, identifier mismatches,
//! out-of-order batches, and subscribe-style calls.

use jsonrpc_http_client::client::{HttpClient, HttpClientBuilder, TransportOutcome};
use jsonrpc_http_client::client::settle_transport;
use jsonrpc_http_client::errors::RpcError;
use jsonrpc_http_client::ids::{Id, IdKind};
use jsonrpc_http_client::reply::{
    correlate_single, decode_batch_replies, decode_reply, ReplyPayload,
};
use jsonrpc_http_client::envelope::BatchEntry;

fn numeric_client() -> HttpClient {
    HttpClientBuilder::new().id_format(IdKind::Number).build()
}

#[test]
fn single_call_returns_result() {
    let mut client = numeric_client();
    // Advance the manager so that this call goes out under identifier 1.
    let first = client.prepare_request(b"warmup", &None).unwrap();
    assert_eq!(first.0, Id::Num(0));

    let (id, payload) = client.prepare_request(b"get_block", &None).unwrap();
    assert_eq!(id, Id::Num(1));
    assert_eq!(
        payload,
        b"{\"jsonrpc\":\"2.0\",\"id\":1,\"method\":\"get_block\"}".to_vec()
    );

    let body = settle_transport(TransportOutcome::Completed(
        b"{\"jsonrpc\":\"2.0\",\"id\":1,\"result\":42}".to_vec(),
    ))
    .unwrap();
    let reply = decode_reply(&body).unwrap();
    let raw = correlate_single(&id, reply).unwrap();
    assert_eq!(raw, b"42".to_vec());
    let typed: i64 = serde_json::from_slice(&raw).unwrap();
    assert_eq!(typed, 42);
}

#[test]
fn mismatched_identifier_fails_with_invalid_request_id() {
    let mut client = numeric_client();
    client.prepare_request(b"warmup", &None).unwrap();
    let (id, _payload) = client.prepare_request(b"get_block", &None).unwrap();
    assert_eq!(id, Id::Num(1));

    let reply = decode_reply(b"{\"jsonrpc\":\"2.0\",\"id\":2,\"result\":42}").unwrap();
    let err = correlate_single(&id, reply).unwrap_err();
    assert_eq!(err, RpcError::InvalidRequestId(b"2".to_vec()));
}

#[test]
fn protocol_error_reply_is_surfaced() {
    let id = Id::Num(1);
    let reply = decode_reply(
        b"{\"jsonrpc\":\"2.0\",\"id\":1,\"error\":{\"code\":-32601,\"message\":\"method not found\"}}",
    )
    .unwrap();
    match correlate_single(&id, reply).unwrap_err() {
        RpcError::Protocol(e) => {
            assert_eq!(e.code, -32601);
            assert_eq!(e.message, b"method not found".to_vec());
            assert_eq!(e.data, None);
        }
        other => panic!("expected a protocol error, got {other:?}"),
    }
}

#[test]
fn batch_of_three_scatters_out_of_order_replies() {
    let mut client = numeric_client();
    // Advance the counter so the batch range starts at 5.
    for _ in 0..5 {
        client.prepare_request(b"warmup", &None).unwrap();
    }
    let entries = vec![
        BatchEntry { method: b"a".to_vec(), params: None },
        BatchEntry { method: b"b".to_vec(), params: None },
        BatchEntry { method: b"c".to_vec(), params: None },
    ];
    let (range, payload) = client.prepare_batch(&entries).unwrap();
    assert_eq!((range.start, range.end), (5, 8));
    assert_eq!(
        payload,
        b"[{\"jsonrpc\":\"2.0\",\"id\":5,\"method\":\"a\"},{\"jsonrpc\":\"2.0\",\"id\":6,\"method\":\"b\"},{\"jsonrpc\":\"2.0\",\"id\":7,\"method\":\"c\"}]"
            .to_vec()
    );

    let body = b"[{\"jsonrpc\":\"2.0\",\"id\":7,\"result\":\"seven\"},{\"jsonrpc\":\"2.0\",\"id\":5,\"result\":\"five\"},{\"jsonrpc\":\"2.0\",\"id\":6,\"error\":{\"code\":-32000,\"message\":\"boom\"}}]";
    let replies = decode_batch_replies(body).unwrap();
    let out = jsonrpc_http_client::reply::scatter_batch(&range, replies).unwrap();
    assert_eq!(out.slots.len(), 3);
    assert_eq!(out.successful_calls, 2);
    assert_eq!(out.failed_calls, 1);
    match &out.slots[0] {
        ReplyPayload::Success(b) => assert_eq!(b, &b"\"five\"".to_vec()),
        other => panic!("slot 0 should be a success, got {other:?}"),
    }
    match &out.slots[1] {
        ReplyPayload::Failure(e) => {
            assert_eq!(e.code, -32000);
            assert_eq!(e.message, b"boom".to_vec());
        }
        other => panic!("slot 1 should be a failure, got {other:?}"),
    }
    match &out.slots[2] {
        ReplyPayload::Success(b) => assert_eq!(b, &b"\"seven\"".to_vec()),
        other => panic!("slot 2 should be a success, got {other:?}"),
    }
}

#[test]
fn batch_reply_with_foreign_identifier_is_fatal() {
    let mut client = numeric_client();
    let entries = vec![
        BatchEntry { method: b"a".to_vec(), params: None },
        BatchEntry { method: b"b".to_vec(), params: None },
    ];
    let (range, _payload) = client.prepare_batch(&entries).unwrap();
    assert_eq!((range.start, range.end), (0, 2));
    let replies = decode_batch_replies(
        b"[{\"jsonrpc\":\"2.0\",\"id\":0,\"result\":1},{\"jsonrpc\":\"2.0\",\"id\":9,\"result\":2}]",
    )
    .unwrap();
    let err = jsonrpc_http_client::reply::scatter_batch(&range, replies).unwrap_err();
    assert_eq!(err, RpcError::InvalidRequestId(b"9".to_vec()));
}

#[test]
fn missing_batch_replies_leave_placeholder_failures() {
    let mut client = numeric_client();
    let entries = vec![
        BatchEntry { method: b"a".to_vec(), params: None },
        BatchEntry { method: b"b".to_vec(), params: None },
    ];
    let (range, _payload) = client.prepare_batch(&entries).unwrap();
    let replies =
        decode_batch_replies(b"[{\"jsonrpc\":\"2.0\",\"id\":1,\"result\":true}]").unwrap();
    let out = jsonrpc_http_client::reply::scatter_batch(&range, replies).unwrap();
    assert_eq!(out.slots.len(), 2);
    // The counts describe the returned slots and sum to the batch size: the
    // unanswered slot holds the placeholder failure and counts as failed.
    assert_eq!(out.successful_calls, 1);
    assert_eq!(out.failed_calls, 1);
    match &out.slots[0] {
        ReplyPayload::Failure(e) => {
            assert_eq!(e.code, 0);
            assert_eq!(e.message, Vec::<u8>::new());
        }
        other => panic!("slot 0 should keep the placeholder, got {other:?}"),
    }
}

#[test]
fn subscribe_is_unsupported_immediately() {
    let client = numeric_client();
    let before_counter = client.id_manager.counter;
    let err = client
        .subscribe(b"sub_m", &Some(b"[1]".to_vec()), b"unsub_m")
        .unwrap_err();
    assert_eq!(err, RpcError::Unsupported);
    // No identifier was allocated and nothing else was touched.
    assert_eq!(client.id_manager.counter, before_counter);
    assert_eq!(client.gate.in_flight, 0);

    let err = client.subscribe_to_method(b"sub_m").unwrap_err();
    assert_eq!(err, RpcError::Unsupported);
}

#[test]
fn timeout_wins_over_a_late_completion() {
    // A transport that would succeed only after the deadline: the race is
    // settled as a timeout and the late result is discarded unseen.
    let rt = tokio::runtime::Builder::new_current_thread()
        .enable_time()
        .build()
        .unwrap();
    let outcome = rt.block_on(async {
        let slow = async {
            tokio::time::sleep(std::time::Duration::from_millis(2000)).await;
            Ok::<Vec<u8>, Vec<u8>>(b"{\"jsonrpc\":\"2.0\",\"id\":1,\"result\":42}".to_vec())
        };
        match tokio::time::timeout(std::time::Duration::from_millis(20), slow).await {
            Ok(Ok(body)) => TransportOutcome::Completed(body),
            Ok(Err(m)) => TransportOutcome::Failed(m),
            Err(_) => TransportOutcome::TimedOut,
        }
    });
    assert_eq!(outcome, TransportOutcome::TimedOut);
    assert_eq!(settle_transport(outcome).unwrap_err(), RpcError::Timeout);
}

#[test]
fn timeout_outcome_never_yields_a_result() {
    let err = settle_transport(TransportOutcome::TimedOut).unwrap_err();
    assert_eq!(err, RpcError::Timeout);
    let err = settle_transport(TransportOutcome::Failed(b"connection refused".to_vec()))
        .unwrap_err();
    assert_eq!(err, RpcError::Transport(b"connection refused".to_vec()));
}
