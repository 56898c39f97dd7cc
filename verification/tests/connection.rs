use ahash::AHashMap;
use jmap_ws::client::{sent_ws, Client, WebSocketCapabilities};
use jmap_ws::correlated::{
    reader_stops, CorrelatedWs, NextStep, ReaderEvent, SendEvent, PUSH_CHANNEL_BUFFER,
};
use jmap_ws::error::{Error, ProblemDetails, ProblemType};
use jmap_ws::model::{
    Arguments, DataType, Method, PushObject, Request, Response, TaggedMethodResponse, URI,
};
use jmap_ws::stream::on_stream;
use jmap_ws::timeout::Timeout;
use jmap_ws::wire::{
    parse_ws_message, serialize_ws_message, transmitted, Message, WebSocketError,
    WebSocketErrorType, WebSocketMessage, WebSocketMessage_, WebSocketPushObject,
    WebSocketResponse, WebSocketResponseType,
};

fn client_for(url: Option<&str>, authorization: &str, accept_invalid_certs: bool) -> Client {
    Client::new(
        3,
        url.map(|url| WebSocketCapabilities { url: url.to_string() }),
        authorization.to_string(),
        accept_invalid_certs,
        Timeout::new(10, 500_000_000),
    )
}

fn client() -> Client {
    client_for(Some("wss://jmap.example.org/ws"), "Basic abc", false)
}

fn request(client: u64) -> Request {
    Request {
        client,
        using: vec![URI { uri: "urn:ietf:params:jmap:mail".to_string() }],
        method_calls: vec![(
            Method { name: "Mailbox/get".to_string() },
            Arguments { json: "{}".to_string() },
            "s0".to_string(),
        )],
        created_ids: None,
    }
}

fn response(request_id: Option<&str>) -> WebSocketResponse {
    WebSocketResponse {
        _type: WebSocketResponseType::Response,
        request_id: request_id.map(|id| id.to_string()),
        method_responses: vec![TaggedMethodResponse {
            name: "Mailbox/get".to_string(),
            arguments: "{}".to_string(),
            id: "s0".to_string(),
        }],
        created_ids: None,
        session_state: "state".to_string(),
    }
}

fn server_error(request_id: Option<&str>) -> WebSocketError {
    WebSocketError {
        type_: WebSocketErrorType::RequestError,
        request_id: request_id.map(|id| id.to_string()),
        p_type: ProblemType::Other("urn:test:error".to_string()),
        status: Some(400),
        title: Some("Bad request".to_string()),
        detail: Some("detail".to_string()),
        limit: Some("limit".to_string()),
    }
}

fn notification() -> WebSocketPushObject {
    let mut states = AHashMap::new();
    states.insert(DataType { name: "Email".to_string() }, "s1".to_string());
    let mut changed = AHashMap::new();
    changed.insert("account".to_string(), states);
    WebSocketPushObject {
        push: PushObject::StateChange { changed },
        push_state: Some("p1".to_string()),
    }
}

fn read(message: WebSocketMessage_) -> ReaderEvent {
    ReaderEvent::Parsed(Some(Ok(message)))
}

fn internal(error: Error) -> String {
    match error {
        Error::Internal(message) => message,
        err => panic!("unexpected error: {err:?}"),
    }
}

fn failure(outcome: Result<Response<TaggedMethodResponse>, Error>) -> String {
    internal(outcome.unwrap_err())
}

fn connection_with(waiters: u64) -> CorrelatedWs {
    let mut ws = client().connect_ws_correlated();
    for waiter in 0..waiters {
        let outgoing = ws.send(request(3), 100 + waiter).unwrap();
        assert_eq!(outgoing.request_id, waiter.to_string());
    }
    ws
}

#[test]
fn sent_requests_bear_their_id() {
    let mut ws = client().connect_ws_correlated();
    let first = ws.send(request(3), 100).unwrap();
    assert_eq!(first.request_id, "0");
    assert_eq!(first.object.id, Some("0".to_string()));
    assert_eq!(first.object.using, request(3).using);
    assert_eq!(first.object.method_calls, request(3).method_calls);
    assert!(first.object.created_ids.is_none());
    assert_eq!(ws.send(request(3), 101).unwrap().request_id, "1");
}

#[test]
fn requests_of_other_clients_are_refused() {
    let mut ws = client().connect_ws_correlated();
    assert_eq!(
        internal(ws.send(request(4), 100).unwrap_err()),
        "Request was built by a different Client than this websocket connection."
    );
    assert_eq!(ws.send(request(3), 100).unwrap().request_id, "0");
}

#[test]
fn responses_reach_their_senders_in_any_order() {
    let mut ws = connection_with(3);
    let step = ws.on_reader_event(read(WebSocketMessage_::Response(response(Some("1")))));
    assert_eq!(step.deliveries.len(), 1);
    assert_eq!(step.deliveries[0].waiter, 101);
    let answer = step.deliveries[0].outcome.as_ref().unwrap();
    assert_eq!(answer.request_id(), Some("1"));
    assert_eq!(answer.method_responses.len(), 1);
    assert!(step.push.is_none());
    assert_eq!(step.next, NextStep::Continue);

    let step = ws.on_reader_event(read(WebSocketMessage_::Error(server_error(Some("0")))));
    assert_eq!(step.deliveries[0].waiter, 100);
    match step.deliveries.into_iter().next().unwrap().outcome {
        Err(Error::Problem(problem)) => {
            assert_eq!(problem.p_type, ProblemType::Other("urn:test:error".to_string()));
            assert_eq!(problem.status, Some(400));
            assert_eq!(problem.title, Some("Bad request".to_string()));
            assert_eq!(problem.detail, Some("detail".to_string()));
            assert_eq!(problem.limit, Some("limit".to_string()));
            assert_eq!(problem.request_id, Some("0".to_string()));
        }
        other => panic!("unexpected outcome: {other:?}"),
    }
    assert_eq!(step.next, NextStep::Continue);
}

#[test]
fn requests_are_answered_once() {
    let mut ws = connection_with(1);
    let step = ws.on_reader_event(read(WebSocketMessage_::Response(response(Some("0")))));
    assert_eq!(step.deliveries.len(), 1);
    let step = ws.on_reader_event(read(WebSocketMessage_::Response(response(Some("0")))));
    assert!(step.deliveries.is_empty());
    assert_eq!(step.next, NextStep::Continue);
}

#[test]
fn timed_out_requests_wait_no_more() {
    let mut ws = connection_with(2);
    let outcome = ws.on_send_event(&"0".to_string(), SendEvent::TimedOut).unwrap();
    assert_eq!(outcome.abandoned, Some(100));
    assert!(outcome.session_state.is_none());
    assert_eq!(failure(outcome.result), "WebSocket response timed out after 10.5s.");
    let step = ws.on_reader_event(read(WebSocketMessage_::Response(response(Some("0")))));
    assert!(step.deliveries.is_empty());
    let step = ws.on_reader_event(read(WebSocketMessage_::Response(response(Some("1")))));
    assert_eq!(step.deliveries[0].waiter, 101);
}

#[test]
fn unsent_requests_wait_no_more() {
    let mut ws = connection_with(1);
    let event = SendEvent::NotSent("broken pipe".to_string());
    let outcome = ws.on_send_event(&"0".to_string(), event).unwrap();
    assert_eq!(outcome.abandoned, Some(100));
    match outcome.result {
        Err(Error::WebSocket(reason)) => assert_eq!(reason, "broken pipe"),
        other => panic!("unexpected result: {other:?}"),
    }
    assert!(ws.shut_down().deliveries.is_empty());
}

#[test]
fn unserialized_requests_keep_their_entry() {
    let mut ws = connection_with(1);
    let event = SendEvent::NotSerialized("no JSON".to_string());
    let outcome = ws.on_send_event(&"0".to_string(), event).unwrap();
    assert_eq!(outcome.abandoned, None);
    match outcome.result {
        Err(Error::Parse(reason)) => assert_eq!(reason, "no JSON"),
        other => panic!("unexpected result: {other:?}"),
    }
    assert_eq!(ws.shut_down().deliveries.len(), 1);
}

#[test]
fn closed_channels_end_the_wait() {
    let mut ws = connection_with(1);
    let outcome = ws.on_send_event(&"0".to_string(), SendEvent::ChannelClosed).unwrap();
    assert_eq!(outcome.abandoned, Some(100));
    assert_eq!(failure(outcome.result), "WebSocket response channel closed.");
}

#[test]
fn answers_update_the_session_state() {
    let mut ws = connection_with(1);
    assert!(ws.on_send_event(&"0".to_string(), SendEvent::Sent).is_none());
    let answer = Response::new(vec![], None, "s2".to_string(), Some("0".to_string()));
    let outcome = ws.on_send_event(&"0".to_string(), SendEvent::Answered(Ok(answer))).unwrap();
    assert_eq!(outcome.session_state, Some("s2".to_string()));
    assert_eq!(outcome.result.unwrap().session_state(), "s2");
    let refusal = Error::Internal("no".to_string());
    let outcome = ws.on_send_event(&"0".to_string(), SendEvent::Answered(Err(refusal))).unwrap();
    assert!(outcome.session_state.is_none());
    assert_eq!(failure(outcome.result), "no");
}

#[test]
fn notifications_are_handed_on() {
    let mut ws = connection_with(1);
    let step = ws.on_reader_event(read(WebSocketMessage_::PushNotification(notification())));
    assert!(step.deliveries.is_empty());
    let PushObject::StateChange { changed } = step.push.unwrap().unwrap();
    assert_eq!(changed["account"][&DataType { name: "Email".to_string() }], "s1");
    assert_eq!(step.next, NextStep::StopIfUnheard);
    assert_eq!(ws.shut_down().deliveries.len(), 1);
}

#[test]
fn messages_without_request_id_break_the_connection() {
    let mut ws = connection_with(2);
    let step = ws.on_reader_event(read(WebSocketMessage_::Response(response(None))));
    assert_eq!(step.next, NextStep::Stop);
    let mut waiters: Vec<u64> = step.deliveries.iter().map(|d| d.waiter).collect();
    waiters.sort();
    assert_eq!(waiters, vec![100, 101]);
    for delivery in step.deliveries {
        assert_eq!(
            failure(delivery.outcome),
            "Internal error: WebSocket response missing requestId."
        );
    }
    assert_eq!(
        internal(step.push.unwrap().unwrap_err()),
        "WebSocket response missing requestId."
    );

    let mut ws = connection_with(1);
    let step = ws.on_reader_event(read(WebSocketMessage_::Error(server_error(None))));
    assert_eq!(step.next, NextStep::Stop);
    assert_eq!(internal(step.push.unwrap().unwrap_err()), "WebSocket error missing requestId.");
    assert_eq!(step.deliveries.len(), 1);
}

#[test]
fn failed_streams_break_the_connection() {
    let mut ws = connection_with(1);
    let step = ws.on_reader_event(ReaderEvent::Failed("reset".to_string()));
    match step.push.unwrap() {
        Err(Error::WebSocket(reason)) => assert_eq!(reason, "reset"),
        other => panic!("unexpected notification: {other:?}"),
    }
    let delivery = step.deliveries.into_iter().next().unwrap();
    assert_eq!(failure(delivery.outcome), "WebSockets error: reset");

    let mut ws = connection_with(1);
    let unread = Error::Parse("no JSON".to_string());
    let step = ws.on_reader_event(ReaderEvent::Parsed(Some(Err(unread))));
    assert_eq!(step.next, NextStep::Stop);
    let delivery = step.deliveries.into_iter().next().unwrap();
    assert_eq!(failure(delivery.outcome), "Parse error: no JSON");

    let mut ws = connection_with(1);
    let step = ws.on_reader_event(ReaderEvent::Closed);
    assert_eq!(internal(step.push.unwrap().unwrap_err()), "WebSocket stream closed.");
    let delivery = step.deliveries.into_iter().next().unwrap();
    assert_eq!(failure(delivery.outcome), "WebSocket stream closed.");
    assert!(ws.shut_down().deliveries.is_empty());
}

#[test]
fn readers_stop_quietly_when_told() {
    let mut ws = connection_with(1);
    let step = ws.on_reader_event(ReaderEvent::Shutdown);
    assert!(step.deliveries.is_empty() && step.push.is_none());
    assert_eq!(step.next, NextStep::Stop);
    let step = ws.on_reader_event(ReaderEvent::Parsed(None));
    assert!(step.deliveries.is_empty() && step.push.is_none());
    assert_eq!(step.next, NextStep::Continue);
    assert!(reader_stops(NextStep::Stop, false));
    assert!(reader_stops(NextStep::StopIfUnheard, true));
    assert!(!reader_stops(NextStep::StopIfUnheard, false));
    assert!(!reader_stops(NextStep::Continue, true));
    assert_eq!(PUSH_CHANNEL_BUFFER, 64);
}

#[test]
fn connections_end_once() {
    let mut ws = connection_with(1);
    let closing = ws.shut_down();
    assert!(closing.signal);
    let delivery = closing.deliveries.into_iter().next().unwrap();
    assert_eq!(delivery.waiter, 100);
    assert_eq!(failure(delivery.outcome), "WebSocket connection dropped.");
    let closing = ws.shut_down();
    assert!(!closing.signal);
    assert!(closing.deliveries.is_empty());
}

#[test]
fn only_text_messages_are_read() {
    let decode = |text: String| -> Result<WebSocketMessage_, String> {
        if text == "response" {
            Ok(WebSocketMessage_::Response(response(Some("0"))))
        } else {
            Err("no JSON".to_string())
        }
    };
    assert!(parse_ws_message(Message::Binary(vec![1]), decode).is_none());
    assert!(parse_ws_message(Message::Ping(vec![]), decode).is_none());
    assert!(parse_ws_message(Message::Pong(vec![]), decode).is_none());
    assert!(parse_ws_message(Message::Close, decode).is_none());
    assert!(parse_ws_message(Message::Frame, decode).is_none());
    match parse_ws_message(Message::Text("response".to_string()), decode) {
        Some(Ok(WebSocketMessage_::Response(read))) => {
            assert_eq!(read.request_id, Some("0".to_string()))
        }
        other => panic!("unexpected reading: {other:?}"),
    }
    match parse_ws_message(Message::Text("{".to_string()), decode) {
        Some(Err(Error::Parse(reason))) => assert_eq!(reason, "no JSON"),
        other => panic!("unexpected reading: {other:?}"),
    }

    let mut ws = connection_with(1);
    let step = ws.on_message(Message::Binary(vec![]), decode);
    assert!(step.deliveries.is_empty() && step.push.is_none());
    let step = ws.on_message(Message::Text("response".to_string()), decode);
    assert_eq!(step.deliveries[0].waiter, 100);
    let step = ws.on_message(Message::Text("{".to_string()), decode);
    assert_eq!(step.next, NextStep::Stop);
}

#[test]
fn streams_hand_out_what_was_read() {
    let decode = |text: String| -> Result<WebSocketMessage_, String> {
        match text.as_str() {
            "response" => Ok(WebSocketMessage_::Response(response(Some("0")))),
            "push" => Ok(WebSocketMessage_::PushNotification(notification())),
            "error" => Ok(WebSocketMessage_::Error(server_error(None))),
            _ => Err("no JSON".to_string()),
        }
    };
    let text = |text: &str| Ok(Message::Text(text.to_string()));
    match on_stream(text("response"), decode) {
        Some(Ok(WebSocketMessage::Response(read))) => assert_eq!(read.request_id(), Some("0")),
        other => panic!("unexpected item: {other:?}"),
    }
    assert!(matches!(
        on_stream(text("push"), decode),
        Some(Ok(WebSocketMessage::PushNotification(_)))
    ));
    match on_stream(text("error"), decode) {
        Some(Err(Error::Problem(problem))) => {
            assert_eq!(problem.status(), Some(400));
            assert_eq!(problem.request_id(), None);
        }
        other => panic!("unexpected item: {other:?}"),
    }
    assert!(matches!(on_stream(text("{"), decode), Some(Err(Error::Parse(_)))));
    assert!(on_stream(Ok(Message::Pong(vec![])), decode).is_none());
    match on_stream(Err("reset".to_string()), decode) {
        Some(Err(Error::WebSocket(reason))) => assert_eq!(reason, "reset"),
        other => panic!("unexpected item: {other:?}"),
    }
}

#[test]
fn messages_are_framed_as_text() {
    assert_eq!(
        serialize_ws_message(Ok("{}".to_string())).unwrap(),
        Message::Text("{}".to_string())
    );
    match serialize_ws_message(Err("no JSON".to_string())) {
        Err(Error::Parse(reason)) => assert_eq!(reason, "no JSON"),
        other => panic!("unexpected message: {other:?}"),
    }
    assert!(transmitted(Ok(())).is_ok());
    match transmitted(Err("reset".to_string())) {
        Err(Error::WebSocket(reason)) => assert_eq!(reason, "reset"),
        other => panic!("unexpected result: {other:?}"),
    }
    assert_eq!(sent_ws("4".to_string(), Ok(())).unwrap(), "4");
    match sent_ws("4".to_string(), Err("reset".to_string())) {
        Err(Error::WebSocket(reason)) => assert_eq!(reason, "reset"),
        other => panic!("unexpected result: {other:?}"),
    }
}

#[test]
fn clients_need_a_stream() {
    let mut client = client();
    let missing = "Websocket stream not set.";
    assert_eq!(internal(client.send_ws(request(3)).unwrap_err()), missing);
    assert_eq!(internal(client.enable_push_ws(None, None).unwrap_err()), missing);
    assert_eq!(internal(client.disable_push_ws().unwrap_err()), missing);
    assert_eq!(internal(client.ws_ping().unwrap_err()), missing);

    client.connect_ws();
    assert_eq!(client.send_ws(request(3)).unwrap().request_id, "0");
    let outgoing = client.send_ws(request(9)).unwrap();
    assert_eq!(outgoing.request_id, "1");
    assert_eq!(outgoing.object.id, Some("1".to_string()));
    let types = vec![DataType { name: "Email".to_string() }];
    let object = client.enable_push_ws(Some(types), Some("p1".to_string())).unwrap();
    assert_eq!(object.data_types, Some(vec![DataType { name: "Email".to_string() }]));
    assert_eq!(object.push_state, Some("p1".to_string()));
    assert!(client.disable_push_ws().is_ok());
    assert_eq!(client.ws_ping().unwrap(), Message::Ping(vec![]));

    client.connect_ws();
    assert_eq!(client.send_ws(request(3)).unwrap().request_id, "0");
}

#[test]
fn correlated_connections_ask_for_pushes() {
    let ws = client().connect_ws_correlated();
    let object = ws.enable_push_ws(None, None);
    assert!(object.data_types.is_none() && object.push_state.is_none());
    let _ = ws.disable_push_ws();
    assert_eq!(ws.ws_ping(), Message::Ping(vec![]));
}

#[test]
fn errors_say_what_is_wrong() {
    let problem = ProblemDetails::new(
        ProblemType::Other("urn:test:error".to_string()),
        None,
        None,
        None,
        None,
        None,
    );
    assert_eq!(Error::Problem(problem).message(), "Request failed: urn:test:error");
    assert_eq!(Error::Internal("x".to_string()).message(), "Internal error: x");
}

#[test]
fn notifications_come_in_order_until_the_breakdown() {
    let numbered = |state: &str| {
        let mut states = AHashMap::new();
        states.insert(DataType { name: "Email".to_string() }, state.to_string());
        let mut changed = AHashMap::new();
        changed.insert("account".to_string(), states);
        read(WebSocketMessage_::PushNotification(WebSocketPushObject {
            push: PushObject::StateChange { changed },
            push_state: None,
        }))
    };
    let mut ws = connection_with(2);
    let events = vec![
        numbered("s1"),
        read(WebSocketMessage_::Response(response(Some("0")))),
        numbered("s2"),
        ReaderEvent::Parsed(None),
        numbered("s3"),
        ReaderEvent::Closed,
        numbered("s4"),
    ];
    let mut states: Vec<String> = Vec::new();
    let mut errors: usize = 0;
    for event in events {
        let step = ws.on_reader_event(event);
        match step.push {
            Some(Ok(PushObject::StateChange { changed })) => {
                states.push(changed["account"][&DataType { name: "Email".to_string() }].clone())
            }
            Some(Err(_)) => errors += 1,
            None => {}
        }
        if reader_stops(step.next, false) {
            break;
        }
    }
    assert_eq!(states, vec!["s1", "s2", "s3"]);
    assert_eq!(errors, 1);
}

#[test]
fn stream_items_follow_the_messages() {
    let decode = |text: String| -> Result<WebSocketMessage_, String> {
        match text.parse::<u64>() {
            Ok(_) => Ok(WebSocketMessage_::Response(response(Some(text.as_str())))),
            Err(_) => Err(text),
        }
    };
    let received = vec![
        Ok(Message::Text("1".to_string())),
        Ok(Message::Ping(vec![])),
        Err("reset".to_string()),
        Ok(Message::Text("bad".to_string())),
        Ok(Message::Close),
        Ok(Message::Text("2".to_string())),
    ];
    let items: Vec<String> = received
        .into_iter()
        .filter_map(|received| on_stream(received, decode))
        .map(|item| match item {
            Ok(WebSocketMessage::Response(read)) => read.request_id.unwrap(),
            Err(error) => error.message(),
            other => panic!("unexpected item: {other:?}"),
        })
        .collect();
    assert_eq!(items, vec!["1", "WebSockets error: reset", "Parse error: bad", "2"]);
}

#[test]
fn waiters_are_answered_once_over_a_whole_run() {
    let mut ws = connection_with(3);
    let mut answered: Vec<u64> = Vec::new();
    for event in [
        read(WebSocketMessage_::Response(response(Some("2")))),
        read(WebSocketMessage_::Error(server_error(Some("2")))),
        ReaderEvent::Closed,
    ] {
        let step = ws.on_reader_event(event);
        answered.extend(step.deliveries.iter().map(|delivery| delivery.waiter));
    }
    answered.extend(ws.shut_down().deliveries.iter().map(|delivery| delivery.waiter));
    answered.sort();
    assert_eq!(answered, vec![100, 101, 102]);
}
