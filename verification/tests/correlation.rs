use futures_util::FutureExt;
use jmap_ws::error::{Error, ProblemType};
use jmap_ws::ids::{next_request_id, CorrelatedWsTx, WsStream};
use jmap_ws::model::{Response, TaggedMethodResponse};
use jmap_ws::pending::{
    fail_pending_responses, resolve_ws_error, resolve_ws_response, Delivery, PendingResponses,
};
use jmap_ws::wire::{
    WebSocketError, WebSocketErrorType, WebSocketResponse, WebSocketResponseType,
};
use tokio::sync::oneshot;

type Sender = oneshot::Sender<Result<Response<TaggedMethodResponse>, Error>>;

fn deliver(tx: Sender, waiter: u64, delivered: Option<Delivery>) {
    let delivery = delivered.unwrap();
    assert_eq!(delivery.waiter, waiter);
    let _ = tx.send(delivery.outcome);
}

fn response(request_id: Option<&str>) -> WebSocketResponse {
    WebSocketResponse {
        _type: WebSocketResponseType::Response,
        request_id: request_id.map(|id| id.to_string()),
        method_responses: vec![],
        created_ids: None,
        session_state: "state".to_string(),
    }
}

fn server_error(request_id: Option<&str>) -> WebSocketError {
    WebSocketError {
        type_: WebSocketErrorType::RequestError,
        request_id: request_id.map(|id| id.to_string()),
        p_type: ProblemType::Other("urn:test:error".to_string()),
        status: Some(400),
        title: Some("Bad request".to_string()),
        detail: None,
        limit: None,
    }
}

#[test]
fn websocket_responses_are_correlated_by_request_id() {
    let mut pending = PendingResponses::new();
    let (tx, rx) = oneshot::channel();
    pending.insert("42".to_string(), 1);

    let delivered = resolve_ws_response(
        &mut pending,
        WebSocketResponse {
            _type: WebSocketResponseType::Response,
            request_id: Some("42".to_string()),
            method_responses: vec![],
            created_ids: None,
            session_state: "state".to_string(),
        },
    )
    .unwrap();
    deliver(tx, 1, delivered);

    let response = rx.now_or_never().unwrap().unwrap().unwrap();
    assert_eq!(response.request_id(), Some("42"));
    assert_eq!(response.session_state(), "state");
}

#[test]
fn websocket_errors_are_correlated_by_request_id() {
    let mut pending = PendingResponses::new();
    let (tx, rx) = oneshot::channel();
    pending.insert("7".to_string(), 1);

    let delivered = resolve_ws_error(
        &mut pending,
        WebSocketError {
            type_: WebSocketErrorType::RequestError,
            request_id: Some("7".to_string()),
            p_type: ProblemType::Other("urn:test:error".to_string()),
            status: Some(400),
            title: Some("Bad request".to_string()),
            detail: None,
            limit: None,
        },
    )
    .unwrap();
    deliver(tx, 1, delivered);

    let error = rx.now_or_never().unwrap().unwrap().unwrap_err();
    match error {
        Error::Problem(problem) => {
            assert_eq!(problem.request_id(), Some("7"));
            assert_eq!(problem.status(), Some(400));
        }
        err => panic!("unexpected error: {err:?}"),
    }
}

#[test]
fn websocket_responses_without_request_id_fail_correlation() {
    let mut pending = PendingResponses::new();

    let error = resolve_ws_response(
        &mut pending,
        WebSocketResponse {
            _type: WebSocketResponseType::Response,
            request_id: None,
            method_responses: vec![],
            created_ids: None,
            session_state: "state".to_string(),
        },
    )
    .unwrap_err();

    match error {
        Error::Internal(message) => {
            assert!(message.contains("missing requestId"));
        }
        err => panic!("unexpected error: {err:?}"),
    }
}

#[test]
fn websocket_errors_without_request_id_fail_correlation() {
    let mut pending = PendingResponses::new();
    pending.insert("0".to_string(), 5);
    match resolve_ws_error(&mut pending, server_error(None)).unwrap_err() {
        Error::Internal(message) => assert_eq!(message, "WebSocket error missing requestId."),
        err => panic!("unexpected error: {err:?}"),
    }
    assert!(pending.contains_key(&"0".to_string()));
}

#[test]
fn unknown_request_ids_answer_nobody() {
    let mut pending = PendingResponses::new();
    pending.insert("1".to_string(), 9);
    assert!(resolve_ws_response(&mut pending, response(Some("2"))).unwrap().is_none());
    assert!(resolve_ws_error(&mut pending, server_error(Some("3"))).unwrap().is_none());
    assert!(pending.contains_key(&"1".to_string()));
}

#[test]
fn pending_map_keeps_what_is_put_in() {
    let mut pending = PendingResponses::new();
    let (a, b) = ("a".to_string(), "b".to_string());
    assert!(!pending.contains_key(&a));
    assert_eq!(pending.insert(a.clone(), 1), None);
    assert_eq!(pending.insert(b.clone(), 2), None);
    assert_eq!(pending.insert(a.clone(), 3), Some(1));
    assert!(pending.contains_key(&a));
    assert_eq!(pending.remove(&a), Some(3));
    assert_eq!(pending.remove(&a), None);
    assert!(!pending.contains_key(&a));
    assert_eq!(pending.remove(&b), Some(2));
}

#[test]
fn failing_tells_every_waiter_once() {
    let mut pending = PendingResponses::new();
    for waiter in 10u64..20 {
        pending.insert(waiter.to_string(), waiter);
    }
    let deliveries = fail_pending_responses(&mut pending, "gone".to_string());
    let mut waiters: Vec<u64> = deliveries.iter().map(|delivery| delivery.waiter).collect();
    waiters.sort();
    assert_eq!(waiters, (10u64..20).collect::<Vec<u64>>());
    for delivery in deliveries {
        match delivery.outcome {
            Err(Error::Internal(message)) => assert_eq!(message, "gone"),
            other => panic!("unexpected outcome: {other:?}"),
        }
    }
    assert!(!pending.contains_key(&"10".to_string()));
    assert!(fail_pending_responses(&mut pending, "gone".to_string()).is_empty());
}

#[test]
fn request_ids_count_up_in_decimal() {
    let mut stream = WsStream::new();
    let ids: Vec<String> = (0..102).map(|_| stream.next_request_id().unwrap()).collect();
    let expected: Vec<String> = (0..102).map(|n: u64| n.to_string()).collect();
    assert_eq!(ids, expected);
}

#[test]
fn largest_request_id_is_not_issued() {
    let mut number: u64 = u64::MAX - 1;
    assert_eq!(next_request_id(&mut number, None).unwrap(), "18446744073709551614");
    assert_eq!(number, u64::MAX);
    match next_request_id(&mut number, None).unwrap_err() {
        Error::Internal(message) => assert_eq!(message, "WebSocket request id overflow."),
        err => panic!("unexpected error: {err:?}"),
    }
    assert_eq!(number, u64::MAX);
}

#[test]
fn request_id_collision_uses_up_the_number() {
    let mut pending = PendingResponses::new();
    pending.insert("0".to_string(), 1);
    let mut tx = CorrelatedWsTx::new();
    match tx.next_request_id(&pending).unwrap_err() {
        Error::Internal(message) => {
            assert_eq!(message, "WebSocket request id collision for requestId 0.")
        }
        err => panic!("unexpected error: {err:?}"),
    }
    assert_eq!(tx.next_request_id(&pending).unwrap(), "1");
    let mut number: u64 = 0;
    assert_eq!(next_request_id(&mut number, None).unwrap(), "0");
}
