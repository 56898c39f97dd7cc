//! What each operation brings about, said of what goes in and what comes out.
use tokio_tungstenite::tungstenite::http::Request as HttpRequest;
use vstd::prelude::*;
use vstd::utf8::encode_utf8;

use crate::client::{is_opening, not_connected, sent_ws, Client, ClientView};
use crate::correlated::{
    after_reader_event, after_send, after_send_event, gives_up_waiting, into_request_object,
    is_reader_step, is_reading, is_result, is_session_state, push_enable, request_object, sent_result,
    stops, timed_out_view, CorrelatedView, NextStep, ReaderEvent, ReaderStep, SendEvent,
};
use crate::error::{lends, Error, ProblemType};
use crate::handshake::{
    accepts_any_cert, client_request_of, jmap_headers, jmap_request, request_headers, request_uri,
    WsHandshake,
};
use crate::ids::{is_issued, issued, next_number, waiting};
use crate::laws::{everyone_is_told, one_answer_for_each};
use crate::model::{DataType, Request, Response, TaggedMethodResponse};
use crate::pending::{
    answered, answers, enumerates, fails, fails_all, Delivery, PendingResponses,
};
use crate::stream::{is_decoded, item_of, present, read_as};
use crate::text::{decimal, header_texts_hold_no_control_characters, starts_with};
use crate::timeout::{duration_text, Timeout};
use crate::wire::{
    problem_of, reading_of, response_of, serialize_ws_message, transmitted, Message, WebSocketError,
    WebSocketMessage, WebSocketMessage_, WebSocketPushEnable, WebSocketPushObject, WebSocketRequest,
    WebSocketResponse,
};

verus! {

/// A request goes out under the id that it was given, whatever it asks, and asks for what the request
/// asks.
pub proof fn requests_bear_their_id(request_id: String, request: Request)
    ensures
        request_object(request_id, request).id == Some(request_id),
        request_object(request_id, request).using == request.using,
        request_object(request_id, request).method_calls == request.method_calls,
        request_object(request_id, request).created_ids == request.created_ids,
        request_object(request_id, request)._type is Request,
{
}

/// A request of the connection's own client waits, under the next number and with no other, for as
/// long as there are numbers; the number is then used up. Any other request changes nothing.
pub proof fn sent_requests_wait_under_the_next_number(
    ws: CorrelatedView,
    request: Request,
    waiter: u64,
    id: Seq<char>,
)
    ensures
        ({
            let after = after_send(ws, request, waiter);
            let accepted = request.client == ws.client && ws.req_id < u64::MAX;
            &&& after.client == ws.client && after.timeout == ws.timeout && after.armed == ws.armed
            &&& after.req_id == ws.req_id + (if accepted { 1int } else { 0int })
            &&& accepted && id == decimal(ws.req_id as nat) ==> after.pending.contains_key(id)
                && after.pending[id] == waiter
            &&& !(accepted && id == decimal(ws.req_id as nat)) ==> {
                &&& after.pending.contains_key(id) == ws.pending.contains_key(id)
                &&& ws.pending.contains_key(id) ==> after.pending[id] == ws.pending[id]
            }
        }),
{
}

/// Asking for an id uses one number up, and fails only where the numbers are used up or where someone
/// waits under the id; otherwise the id is the number in decimal notation.
pub proof fn ids_count_up(number: u64, pending: Option<&PendingResponses>, result: Result<
    String,
    Error,
>)
    requires
        is_issued(result, issued(number, waiting(pending))),
    ensures
        number < u64::MAX ==> next_number(number) == number + 1,
        number == u64::MAX ==> next_number(number) == number,
        match result {
            Ok(id) => {
                &&& number < u64::MAX
                &&& id@ == decimal(number as nat)
                &&& pending is Some ==> !pending->0@.contains_key(id@)
            },
            Err(error) => {
                &&& error matches Error::Internal(text)
                &&& if number == u64::MAX {
                    text@ == "WebSocket request id overflow."@
                } else {
                    &&& pending is Some && pending->0@.contains_key(decimal(number as nat))
                    &&& text@ == "WebSocket request id collision for requestId "@ + decimal(
                        number as nat,
                    ) + "."@
                }
            },
        },
{
}

/// A request that is answered with a response comes to that response, whatever it holds, and hands on
/// its session state.
pub proof fn responses_are_the_result(
    response: Response<TaggedMethodResponse>,
    timeout: Timeout,
    result: Result<Response<TaggedMethodResponse>, Error>,
    state: Option<String>,
)
    requires
        sent_result(SendEvent::Answered(Ok(response)), timeout) matches Some(expected) && is_result(
            result,
            expected,
        ),
        is_session_state(state, result),
    ensures
        result == Ok::<Response<TaggedMethodResponse>, Error>(response),
        state matches Some(text) && text@ == response.session_state@,
{
}

/// A request comes to an error only where an error was delivered, where it could not be written or
/// sent, where its channel was closed, or where it waited too long. The error says which, and hands on
/// no session state.
pub proof fn requests_fail_only_on_failures(
    event: SendEvent,
    timeout: Timeout,
    result: Result<Response<TaggedMethodResponse>, Error>,
    state: Option<String>,
)
    requires
        sent_result(event, timeout) matches Some(expected) && is_result(result, expected),
        is_session_state(state, result),
        result is Err,
    ensures
        state is None,
        match event {
            SendEvent::Answered(answer) => match (answer, result->Err_0) {
                (Err(Error::Internal(delivered)), Error::Internal(told)) => told@ == delivered@,
                (Err(Error::Parse(delivered)), Error::Parse(told)) => told@ == delivered@,
                (Err(Error::WebSocket(delivered)), Error::WebSocket(told)) => told@ == delivered@,
                (Err(Error::Problem(delivered)), Error::Problem(told)) => told == delivered,
                _ => false,
            },
            SendEvent::NotSerialized(reason) => result->Err_0 matches Error::Parse(told) && told@
                == reason@,
            SendEvent::NotSent(reason) => result->Err_0 matches Error::WebSocket(told) && told@
                == reason@,
            SendEvent::ChannelClosed => result->Err_0 matches Error::Internal(told) && told@
                == "WebSocket response channel closed."@,
            SendEvent::TimedOut => result->Err_0 matches Error::Internal(told) && told@
                == "WebSocket response timed out after "@ + duration_text(
                timeout.secs(),
                timeout.nanos(),
            ) + "."@,
            SendEvent::Sent => false,
        },
{
}

/// A request comes to a response only where one was delivered, and to nothing only while it was merely
/// sent.
pub proof fn results_come_of_deliveries(
    event: SendEvent,
    timeout: Timeout,
    result: Result<Response<TaggedMethodResponse>, Error>,
)
    ensures
        sent_result(event, timeout) is None <==> event is Sent,
        (sent_result(event, timeout) matches Some(expected) && is_result(result, expected)
            && result is Ok) ==> event == SendEvent::Answered(result),
{
}

/// Nobody waits for a request any more that could not be sent, whose channel was closed, or that
/// waited too long. Every other event of a request, and every other request, is left as it is.
pub proof fn only_failures_end_the_wait(
    ws: CorrelatedView,
    id: Seq<char>,
    event: SendEvent,
    other: Seq<char>,
)
    ensures
        ({
            let after = after_send_event(ws, id, event);
            let given_up = match event {
                SendEvent::NotSent(_) | SendEvent::ChannelClosed | SendEvent::TimedOut => true,
                SendEvent::NotSerialized(_) | SendEvent::Sent | SendEvent::Answered(_) => false,
            };
            &&& gives_up_waiting(event) == given_up
            &&& after.client == ws.client && after.timeout == ws.timeout && after.armed == ws.armed
            &&& after.req_id == ws.req_id
            &&& after.pending.contains_key(other) == (ws.pending.contains_key(other) && !(given_up
                && other == id))
            &&& after.pending.contains_key(other) ==> after.pending[other] == ws.pending[other]
        }),
{
}

/// What the response of a request brings back to its sender: the very method responses, ids, session
/// state and request id that the server sent.
pub proof fn sender_gets_what_the_server_sent(
    pending: Map<Seq<char>, u64>,
    object: WebSocketResponse,
    step: ReaderStep,
    timeout: Timeout,
    result: Result<Response<TaggedMethodResponse>, Error>,
    state: Option<String>,
)
    requires
        object.request_id matches Some(id) && pending.contains_key(id@),
        is_reader_step(
            pending,
            ReaderEvent::Parsed(Some(Ok(WebSocketMessage_::Response(object)))),
            step,
        ),
        sent_result(SendEvent::Answered(step.deliveries@[0].outcome), timeout) matches Some(expected)
            && is_result(result, expected),
        is_session_state(state, result),
    ensures
        step.deliveries@.len() == 1,
        step.deliveries@[0].waiter == pending[object.request_id->0@],
        result is Ok,
        result->Ok_0.method_responses == object.method_responses,
        result->Ok_0.created_ids == object.created_ids,
        result->Ok_0.session_state == object.session_state,
        result->Ok_0.request_id == object.request_id,
        state is Some,
        state->0@ == object.session_state@,
{
}

/// The reader stops at a failure and at the end of the stream, at a message that cannot be read, and at
/// an answer that does not say which request it answers, whatever the reason says; and it stops when
/// it is told to. At nothing else does it stop of itself.
pub proof fn reader_stops_exactly_on_fatal_events(
    pending: Map<Seq<char>, u64>,
    event: ReaderEvent,
    step: ReaderStep,
)
    requires
        is_reader_step(pending, event, step),
    ensures
        step.next == (match event {
            ReaderEvent::Shutdown | ReaderEvent::Failed(_) | ReaderEvent::Closed => NextStep::Stop,
            ReaderEvent::Parsed(Some(Err(_))) => NextStep::Stop,
            ReaderEvent::Parsed(Some(Ok(WebSocketMessage_::Response(object)))) => {
                if object.request_id is None {
                    NextStep::Stop
                } else {
                    NextStep::Continue
                }
            },
            ReaderEvent::Parsed(Some(Ok(WebSocketMessage_::Error(object)))) => {
                if object.request_id is None {
                    NextStep::Stop
                } else {
                    NextStep::Continue
                }
            },
            ReaderEvent::Parsed(Some(Ok(WebSocketMessage_::PushNotification(_)))) => {
                NextStep::StopIfUnheard
            },
            ReaderEvent::Parsed(None) => NextStep::Continue,
        }),
{
}

/// A failure of the stream, for any reason, ends the connection: nobody waits any more, everyone who
/// did is told of the reason, and the reason is handed on.
pub proof fn failed_stream_ends_the_connection(
    pending: Map<Seq<char>, u64>,
    reason: String,
    step: ReaderStep,
)
    requires
        is_reader_step(pending, ReaderEvent::Failed(reason), step),
    ensures
        step.next == NextStep::Stop,
        step.push matches Some(Err(Error::WebSocket(told))) && told@ == reason@,
        after_reader_event(pending, ReaderEvent::Failed(reason)) == Map::<Seq<char>, u64>::empty(),
        step.deliveries@.len() == pending.dom().len(),
        forall|id: Seq<char>| #[trigger]
            pending.contains_key(id) ==> exists|i: int|
                0 <= i < step.deliveries@.len() && (#[trigger] step.deliveries@[i]).waiter
                    == pending[id],
        forall|i: int|
            0 <= i < step.deliveries@.len() ==> ((#[trigger] step.deliveries@[i]).outcome matches Err(
                Error::Internal(told),
            ) && told@ == "WebSockets error: "@ + reason@),
{
    everyone_is_answered(pending, step.deliveries@, "WebSockets error: "@ + reason@);
}

/// The end of the stream ends the connection: nobody waits any more, and everyone who did is told, as
/// is whoever takes notifications.
pub proof fn closed_stream_ends_the_connection(pending: Map<Seq<char>, u64>, step: ReaderStep)
    requires
        is_reader_step(pending, ReaderEvent::Closed, step),
    ensures
        step.next == NextStep::Stop,
        step.push matches Some(Err(Error::Internal(told))) && told@ == "WebSocket stream closed."@,
        after_reader_event(pending, ReaderEvent::Closed) == Map::<Seq<char>, u64>::empty(),
        step.deliveries@.len() == pending.dom().len(),
        forall|id: Seq<char>| #[trigger]
            pending.contains_key(id) ==> exists|i: int|
                0 <= i < step.deliveries@.len() && (#[trigger] step.deliveries@[i]).waiter
                    == pending[id],
        forall|i: int|
            0 <= i < step.deliveries@.len() ==> ((#[trigger] step.deliveries@[i]).outcome matches Err(
                Error::Internal(told),
            ) && told@ == "WebSocket stream closed."@),
{
    everyone_is_answered(pending, step.deliveries@, "WebSocket stream closed."@);
}

/// A message that could not be read, for any reason, ends the connection: nobody waits any more,
/// everyone who did is told of the error in words, and the error is handed on.
pub proof fn unreadable_message_ends_the_connection(
    pending: Map<Seq<char>, u64>,
    error: Error,
    step: ReaderStep,
)
    requires
        is_reader_step(pending, ReaderEvent::Parsed(Some(Err(error))), step),
    ensures
        step.next == NextStep::Stop,
        step.push matches Some(Err(_)),
        match (error, step.push->0->Err_0) {
            (Error::Internal(reason), Error::Internal(told)) => told@ == reason@,
            (Error::Parse(reason), Error::Parse(told)) => told@ == reason@,
            (Error::WebSocket(reason), Error::WebSocket(told)) => told@ == reason@,
            (Error::Problem(problem), Error::Problem(told)) => told == problem,
            _ => false,
        },
        after_reader_event(pending, ReaderEvent::Parsed(Some(Err(error)))) == Map::<
            Seq<char>,
            u64,
        >::empty(),
        step.deliveries@.len() == pending.dom().len(),
        forall|id: Seq<char>| #[trigger]
            pending.contains_key(id) ==> exists|i: int|
                0 <= i < step.deliveries@.len() && (#[trigger] step.deliveries@[i]).waiter
                    == pending[id],
        forall|i: int|
            0 <= i < step.deliveries@.len() ==> ((#[trigger] step.deliveries@[i]).outcome matches Err(
                Error::Internal(told),
            ) && told@ == (match error {
                Error::Internal(reason) => "Internal error: "@ + reason@,
                Error::Parse(reason) => "Parse error: "@ + reason@,
                Error::WebSocket(reason) => "WebSockets error: "@ + reason@,
                Error::Problem(problem) => match problem.p_type {
                    ProblemType::Other(uri) => "Request failed: "@ + uri@,
                },
            })),
{
    everyone_is_answered(pending, step.deliveries@, error@.message());
}

/// A response that does not say which request it answers ends the connection: nobody waits any more,
/// everyone who did is told, and the error is handed on.
pub proof fn response_without_id_ends_the_connection(
    pending: Map<Seq<char>, u64>,
    object: WebSocketResponse,
    step: ReaderStep,
)
    requires
        object.request_id is None,
        is_reader_step(
            pending,
            ReaderEvent::Parsed(Some(Ok(WebSocketMessage_::Response(object)))),
            step,
        ),
    ensures
        step.next == NextStep::Stop,
        step.push matches Some(Err(Error::Internal(told))) && told@
            == "WebSocket response missing requestId."@,
        after_reader_event(
            pending,
            ReaderEvent::Parsed(Some(Ok(WebSocketMessage_::Response(object)))),
        ) == Map::<Seq<char>, u64>::empty(),
        step.deliveries@.len() == pending.dom().len(),
        forall|id: Seq<char>| #[trigger]
            pending.contains_key(id) ==> exists|i: int|
                0 <= i < step.deliveries@.len() && (#[trigger] step.deliveries@[i]).waiter
                    == pending[id],
        forall|i: int|
            0 <= i < step.deliveries@.len() ==> ((#[trigger] step.deliveries@[i]).outcome matches Err(
                Error::Internal(told),
            ) && told@ == "Internal error: "@ + "WebSocket response missing requestId."@),
{
    everyone_is_answered(
        pending,
        step.deliveries@,
        "Internal error: "@ + "WebSocket response missing requestId."@,
    );
}

/// A server's error that does not say which request it is about ends the connection: nobody waits any
/// more, everyone who did is told, and the error is handed on.
pub proof fn problem_without_id_ends_the_connection(
    pending: Map<Seq<char>, u64>,
    object: WebSocketError,
    step: ReaderStep,
)
    requires
        object.request_id is None,
        is_reader_step(
            pending,
            ReaderEvent::Parsed(Some(Ok(WebSocketMessage_::Error(object)))),
            step,
        ),
    ensures
        step.next == NextStep::Stop,
        step.push matches Some(Err(Error::Internal(told))) && told@
            == "WebSocket error missing requestId."@,
        after_reader_event(
            pending,
            ReaderEvent::Parsed(Some(Ok(WebSocketMessage_::Error(object)))),
        ) == Map::<Seq<char>, u64>::empty(),
        step.deliveries@.len() == pending.dom().len(),
        forall|id: Seq<char>| #[trigger]
            pending.contains_key(id) ==> exists|i: int|
                0 <= i < step.deliveries@.len() && (#[trigger] step.deliveries@[i]).waiter
                    == pending[id],
        forall|i: int|
            0 <= i < step.deliveries@.len() ==> ((#[trigger] step.deliveries@[i]).outcome matches Err(
                Error::Internal(told),
            ) && told@ == "Internal error: "@ + "WebSocket error missing requestId."@),
{
    everyone_is_answered(
        pending,
        step.deliveries@,
        "Internal error: "@ + "WebSocket error missing requestId."@,
    );
}

/// When all requests fail, there is one answer for each of them, to the one who waits for it, and it
/// gives the reason.
pub proof fn everyone_is_answered(
    pending: Map<Seq<char>, u64>,
    deliveries: Seq<Delivery>,
    text: Seq<char>,
)
    requires
        fails_all(pending, deliveries, text),
    ensures
        pending.dom().finite(),
        deliveries.len() == pending.dom().len(),
        exists|ids: Seq<Seq<char>>| #[trigger]
            ids.no_duplicates() && ids.to_set() == pending.dom() && deliveries.len() == ids.len()
                && forall|i: int|
                0 <= i < ids.len() ==> (#[trigger] deliveries[i]).waiter == pending[ids[i]],
        forall|id: Seq<char>| #[trigger]
            pending.contains_key(id) ==> exists|i: int|
                0 <= i < deliveries.len() && (#[trigger] deliveries[i]).waiter == pending[id],
        forall|i: int|
            0 <= i < deliveries.len() ==> ((#[trigger] deliveries[i]).outcome matches Err(
                Error::Internal(told),
            ) && told@ == text),
{
    one_answer_for_each(pending, deliveries, text);
    let ids = choose|ids: Seq<Seq<char>>| #[trigger]
        enumerates(ids, pending) && deliveries.len() == ids.len() && forall|j: int|
            0 <= j < ids.len() ==> fails(#[trigger] deliveries[j], pending[ids[j]], text);
    assert(ids.to_set() =~= pending.dom()) by {
        assert forall|id: Seq<char>| ids.to_set().contains(id) <==> pending.dom().contains(id) by {
            assert(ids.contains(id) <==> pending.contains_key(id));
        }
    }
    assert forall|i: int| 0 <= i < ids.len() implies (#[trigger] deliveries[i]).waiter
        == pending[ids[i]] by {
        assert(fails(deliveries[i], pending[ids[i]], text));
    }
    assert(ids.no_duplicates());
    assert forall|id: Seq<char>| #[trigger] pending.contains_key(id) implies exists|i: int|
        0 <= i < deliveries.len() && (#[trigger] deliveries[i]).waiter == pending[id] by {
        everyone_is_told(pending, deliveries, text, id);
        let i = choose|i: int|
            0 <= i < deliveries.len() && fails(#[trigger] deliveries[i], pending[id], text);
        assert(deliveries[i].waiter == pending[id]);
    }
    assert forall|i: int| 0 <= i < deliveries.len() implies ((
    #[trigger] deliveries[i]).outcome matches Err(Error::Internal(told)) && told@ == text) by {
        assert(fails(deliveries[i], pending[ids[i]], text));
    }
}

/// A response that says which request it answers goes, whole, to whoever waits for it and to nobody
/// else; that request waits no more, every other does, and the reader goes on.
pub proof fn response_goes_to_whoever_waits(
    pending: Map<Seq<char>, u64>,
    object: WebSocketResponse,
    step: ReaderStep,
    other: Seq<char>,
)
    requires
        object.request_id is Some,
        is_reader_step(
            pending,
            ReaderEvent::Parsed(Some(Ok(WebSocketMessage_::Response(object)))),
            step,
        ),
    ensures
        step.next == NextStep::Continue,
        step.push is None,
        step.deliveries@.len() == (if pending.contains_key(object.request_id->0@) {
            1int
        } else {
            0int
        }),
        pending.contains_key(object.request_id->0@) ==> {
            &&& step.deliveries@[0].waiter == pending[object.request_id->0@]
            &&& step.deliveries@[0].outcome matches Ok(response)
            &&& response.method_responses == object.method_responses
            &&& response.created_ids == object.created_ids
            &&& response.session_state == object.session_state
            &&& response.request_id == object.request_id
        },
        ({
            let after = after_reader_event(
                pending,
                ReaderEvent::Parsed(Some(Ok(WebSocketMessage_::Response(object)))),
            );
            &&& after.contains_key(other) == (pending.contains_key(other) && other
                != object.request_id->0@)
            &&& after.contains_key(other) ==> after[other] == pending[other]
        }),
{
}

/// A server's error that says which request it is about goes, whole, to whoever waits for the response
/// and to nobody else; that request waits no more, every other does, and the reader goes on.
pub proof fn problem_goes_to_whoever_waits(
    pending: Map<Seq<char>, u64>,
    object: WebSocketError,
    step: ReaderStep,
    other: Seq<char>,
)
    requires
        object.request_id is Some,
        is_reader_step(
            pending,
            ReaderEvent::Parsed(Some(Ok(WebSocketMessage_::Error(object)))),
            step,
        ),
    ensures
        step.next == NextStep::Continue,
        step.push is None,
        step.deliveries@.len() == (if pending.contains_key(object.request_id->0@) {
            1int
        } else {
            0int
        }),
        pending.contains_key(object.request_id->0@) ==> {
            &&& step.deliveries@[0].waiter == pending[object.request_id->0@]
            &&& step.deliveries@[0].outcome matches Err(Error::Problem(problem))
            &&& problem.p_type == object.p_type
            &&& problem.status == object.status
            &&& problem.title == object.title
            &&& problem.detail == object.detail
            &&& problem.limit == object.limit
            &&& problem.request_id == object.request_id
        },
        ({
            let after = after_reader_event(
                pending,
                ReaderEvent::Parsed(Some(Ok(WebSocketMessage_::Error(object)))),
            );
            &&& after.contains_key(other) == (pending.contains_key(other) && other
                != object.request_id->0@)
            &&& after.contains_key(other) ==> after[other] == pending[other]
        }),
{
}

/// A notification is handed on as it came, to be read on for as long as somebody takes notifications;
/// it answers nobody, and everyone goes on waiting.
pub proof fn notification_is_handed_on(
    pending: Map<Seq<char>, u64>,
    object: WebSocketPushObject,
    step: ReaderStep,
)
    requires
        is_reader_step(
            pending,
            ReaderEvent::Parsed(Some(Ok(WebSocketMessage_::PushNotification(object)))),
            step,
        ),
    ensures
        step.deliveries@.len() == 0,
        step.push matches Some(Ok(pushed)) && pushed == object.push,
        !stops(step.next, false),
        stops(step.next, true),
        after_reader_event(
            pending,
            ReaderEvent::Parsed(Some(Ok(WebSocketMessage_::PushNotification(object)))),
        ) == pending,
{
}

/// A message that says nothing, and the order to stop, answer nobody and hand nothing on; everyone goes
/// on waiting.
pub proof fn silent_events_change_nothing(
    pending: Map<Seq<char>, u64>,
    event: ReaderEvent,
    step: ReaderStep,
)
    requires
        event == ReaderEvent::Shutdown || event == ReaderEvent::Parsed(None),
        is_reader_step(pending, event, step),
    ensures
        step.deliveries@.len() == 0,
        step.push is None,
        after_reader_event(pending, event) == pending,
{
}

/// A reader that is to stop stops, one that is to go on goes on, and one that is to stop where nobody
/// takes notifications does as that says.
pub proof fn stopping_follows_the_step(unheard: bool)
    ensures
        stops(NextStep::Stop, unheard),
        !stops(NextStep::Continue, unheard),
        stops(NextStep::StopIfUnheard, unheard) == unheard,
{
}

/// What a connection makes of a message is what the JSON reader makes of its text; of any other message
/// it makes nothing.
pub proof fn messages_are_read_with_the_decoder<
    D: Fn(String) -> Result<WebSocketMessage_, String>,
>(message: Message, decode: D, event: ReaderEvent)
    requires
        is_reading(message, decode, event),
    ensures
        match message {
            Message::Text(text) => match event {
                ReaderEvent::Parsed(Some(Ok(object))) => call_ensures(decode, (text,), Ok(object)),
                ReaderEvent::Parsed(Some(Err(Error::Parse(reason)))) => call_ensures(
                    decode,
                    (text,),
                    Err(reason),
                ),
                _ => false,
            },
            _ => event == ReaderEvent::Parsed(None),
        },
{
}

/// A response that was read is handed out as a response, whatever it holds, with all that it holds.
pub proof fn responses_are_handed_out_whole(
    object: WebSocketResponse,
    item: Option<Result<WebSocketMessage, Error>>,
)
    requires
        item == item_of(Some(Ok(WebSocketMessage_::Response(object)))),
    ensures
        item matches Some(Ok(WebSocketMessage::Response(response))) && {
            &&& response.method_responses == object.method_responses
            &&& response.created_ids == object.created_ids
            &&& response.session_state == object.session_state
            &&& response.request_id == object.request_id
        },
{
}

/// A notification that was read is handed out as it came.
pub proof fn notifications_are_handed_out(
    object: WebSocketPushObject,
    item: Option<Result<WebSocketMessage, Error>>,
)
    requires
        item == item_of(Some(Ok(WebSocketMessage_::PushNotification(object)))),
    ensures
        item matches Some(Ok(WebSocketMessage::PushNotification(push))) && push == object.push,
{
}

/// A server's error that was read is handed out as the problem that it holds, with all that it holds.
pub proof fn problems_are_handed_out_whole(
    object: WebSocketError,
    item: Option<Result<WebSocketMessage, Error>>,
)
    requires
        item == item_of(Some(Ok(WebSocketMessage_::Error(object)))),
    ensures
        item matches Some(Err(Error::Problem(problem))) && {
            &&& problem.p_type == object.p_type
            &&& problem.status == object.status
            &&& problem.title == object.title
            &&& problem.detail == object.detail
            &&& problem.limit == object.limit
            &&& problem.request_id == object.request_id
        },
{
}

/// An error is handed out only for a failure of the stream, for a text that could not be read, and for
/// a server's error: the error says which.
pub proof fn errors_are_handed_out_only_for_failures(
    received: Result<Message, String>,
    decoded: Result<WebSocketMessage_, String>,
    error: Error,
)
    requires
        item_of(read_as(received, decoded)) == Some(Err::<WebSocketMessage, Error>(error)),
    ensures
        match received {
            Err(reason) => error == Error::WebSocket(reason),
            Ok(Message::Text(_)) => match decoded {
                Err(reason) => error == Error::Parse(reason),
                Ok(WebSocketMessage_::Error(object)) => {
                    &&& error matches Error::Problem(problem)
                    &&& problem.p_type == object.p_type && problem.request_id == object.request_id
                },
                Ok(_) => false,
            },
            Ok(_) => false,
        },
{
}

/// A failure of the stream is handed out with its reason, a text that cannot be read with the reason of
/// the JSON reader, and nothing is handed out for a message that is no text.
pub proof fn failures_are_handed_out(
    received: Result<Message, String>,
    decoded: Result<WebSocketMessage_, String>,
)
    ensures
        match received {
            Err(reason) => item_of(read_as(received, decoded)) == Some(
                Err::<WebSocketMessage, Error>(Error::WebSocket(reason)),
            ),
            Ok(Message::Text(_)) => {
                &&& item_of(read_as(received, decoded)) is Some
                &&& decoded matches Err(reason) ==> item_of(read_as(received, decoded)) == Some(
                    Err::<WebSocketMessage, Error>(Error::Parse(reason)),
                )
                &&& decoded matches Ok(object) ==> read_as(received, decoded) == Some(
                    Ok::<WebSocketMessage_, Error>(object),
                )
            },
            Ok(_) => item_of(read_as(received, decoded)) is None,
        },
        forall|error: Error|
            item_of(Some(Err(error))) == Some(Err::<WebSocketMessage, Error>(error)),
{
}

/// What is read of a text on a stream is what the JSON reader makes of that text.
pub proof fn texts_are_read_with_the_decoder<D: Fn(String) -> Result<WebSocketMessage_, String>>(
    text: String,
    decode: D,
    decoded: Result<WebSocketMessage_, String>,
)
    requires
        is_decoded(Ok(Message::Text(text)), decode, decoded),
    ensures
        call_ensures(decode, (text,), decoded),
{
}

/// The values that are taken out of a list are those that are there, in their order.
pub proof fn present_values_are_kept<T>(items: Seq<Option<T>>)
    ensures
        present(items) == items.filter(|item: Option<T>| item is Some).map_values(
            |item: Option<T>| item->0,
        ),
    decreases items.len(),
{
    reveal(Seq::filter);
    let is_there = |item: Option<T>| item is Some;
    let value = |item: Option<T>| item->0;
    if items.len() == 0 {
        assert(items.filter(is_there).map_values(value) =~= seq![]);
    } else {
        present_values_are_kept(items.drop_last());
        assert(present(items) =~= items.filter(is_there).map_values(value));
    }
}

/// The request that opens a connection carries the client's authorization and no other, asks for the
/// subprotocol `jmap` and no other, and has no header besides those of a WebSocket request.
pub proof fn opening_requests_are_authorized(
    headers: Map<Seq<char>, Seq<Seq<u8>>>,
    host: Seq<u8>,
    authorization: Seq<char>,
)
    requires
        jmap_headers(headers, host, authorization),
    ensures
        headers.contains_key("authorization"@),
        headers["authorization"@] == seq![encode_utf8(authorization)],
        headers.contains_key("sec-websocket-protocol"@),
        headers["sec-websocket-protocol"@] == seq![encode_utf8("jmap"@)],
        headers["host"@] == seq![host],
        headers["connection"@] == seq![encode_utf8("Upgrade"@)],
        headers["upgrade"@] == seq![encode_utf8("websocket"@)],
        headers["sec-websocket-version"@] == seq![encode_utf8("13"@)],
        headers["sec-websocket-key"@].len() == 1,
        headers["sec-websocket-key"@][0].len() == 24,
        headers.dom() == set![
            "host"@,
            "connection"@,
            "upgrade"@,
            "sec-websocket-version"@,
            "sec-websocket-key"@,
            "authorization"@,
            "sec-websocket-protocol"@,
        ],
{
    reveal_strlit("host");
    reveal_strlit("connection");
    reveal_strlit("upgrade");
    reveal_strlit("sec-websocket-version");
    reveal_strlit("sec-websocket-key");
    reveal_strlit("authorization");
    reveal_strlit("sec-websocket-protocol");
    assert("host"@.len() == 4 && "connection"@.len() == 10 && "upgrade"@.len() == 7
        && "sec-websocket-version"@.len() == 21 && "sec-websocket-key"@.len() == 17
        && "authorization"@.len() == 13 && "sec-websocket-protocol"@.len() == 22);
    assert(headers.dom() =~= set![
        "host"@,
        "connection"@,
        "upgrade"@,
        "sec-websocket-version"@,
        "sec-websocket-key"@,
        "authorization"@,
        "sec-websocket-protocol"@,
    ]);
}

/// A client that knows a usable endpoint gets a request to it with its own authorization, and checks
/// the certificate unless it was told not to and the endpoint is reached over TLS. It gets an error
/// only where there is no endpoint or its URL is of no use, and the error says why.
pub proof fn openings_go_to_the_endpoint(client: ClientView, opened: Result<WsHandshake, Error>)
    requires
        is_opening(client, opened),
    ensures
        opened is Ok <==> (client.websocket is Some && client_request_of(client.websocket->0) is Ok),
        match opened {
            Ok(handshake) => {
                let url = client.websocket->0;
                &&& request_uri(handshake.request) == (client_request_of(url)->Ok_0).0
                &&& request_headers(handshake.request)["host"@] == seq![
                    (client_request_of(url)->Ok_0).1,
                ]
                &&& request_headers(handshake.request)["authorization"@] == seq![
                    encode_utf8(client.authorization),
                ]
                &&& request_headers(handshake.request)["sec-websocket-protocol"@] == seq![
                    encode_utf8("jmap"@),
                ]
                &&& handshake.accept_any_cert <==> client.accept_invalid_certs
                    && "wss"@.is_prefix_of(url)
            },
            Err(error) => match client.websocket {
                None => error matches Error::Internal(text) && text@
                    == "JMAP server does not advertise any websocket capabilities."@,
                Some(url) => error matches Error::WebSocket(text) && client_request_of(url) == Err::<
                    (Seq<char>, Seq<u8>),
                    Seq<char>,
                >(text@),
            },
        },
{
    if let Ok(handshake) = opened {
        opening_requests_are_authorized(
            request_headers(handshake.request),
            (client_request_of(client.websocket->0)->Ok_0).1,
            client.authorization,
        );
    }
}

/// A client cannot authorize itself only where it has an endpoint to go to and its authorization holds
/// a control character other than the tab.
pub proof fn authorizations_without_control_characters_do(client: ClientView)
    ensures
        client.cannot_authorize() <==> {
            &&& client.websocket is Some && client_request_of(client.websocket->0) is Ok
            &&& exists|i: int|
                0 <= i < client.authorization.len() && ((#[trigger] client.authorization[i] as u32)
                    < 32 && client.authorization[i] != '\t' || client.authorization[i] as u32
                    == 127)
        },
{
    header_texts_hold_no_control_characters(client.authorization);
}

/// An answer goes to the one who waits for it, as it is, and to nobody where nobody does. Then that
/// request waits no more, and every other does.
pub proof fn answers_go_to_whoever_waits(
    pending: Map<Seq<char>, u64>,
    id: String,
    outcome: Result<Response<TaggedMethodResponse>, Error>,
    delivered: Option<Delivery>,
    other: Seq<char>,
)
    requires
        answers(pending, id@, outcome, delivered),
    ensures
        delivered is Some <==> pending.contains_key(id@),
        delivered matches Some(delivery) ==> delivery.waiter == pending[id@] && delivery.outcome
            == outcome,
        answered(pending, None) == pending,
        answered(pending, Some(id)).contains_key(other) == (pending.contains_key(other) && other
            != id@),
        answered(pending, Some(id)).contains_key(other) ==> answered(pending, Some(id))[other]
            == pending[other],
{
}

/// A response holds what the object that it was read from holds.
pub proof fn responses_keep_what_was_read(object: WebSocketResponse)
    ensures
        response_of(object).method_responses == object.method_responses,
        response_of(object).created_ids == object.created_ids,
        response_of(object).session_state == object.session_state,
        response_of(object).request_id == object.request_id,
{
}

/// The details of a problem hold what the object that they were read from holds.
pub proof fn problems_keep_what_was_read(object: WebSocketError)
    ensures
        problem_of(object).p_type == object.p_type,
        problem_of(object).status == object.status,
        problem_of(object).title == object.title,
        problem_of(object).detail == object.detail,
        problem_of(object).limit == object.limit,
        problem_of(object).request_id == object.request_id,
{
}

/// Every message that the JSON reader understands is read, and one that it does not is an error with
/// its reason.
pub proof fn readings_follow_the_decoder(decoded: Result<WebSocketMessage_, String>)
    ensures
        reading_of(decoded) is Ok <==> decoded is Ok,
        decoded is Ok ==> reading_of(decoded)->Ok_0 == decoded->Ok_0,
        decoded is Err ==> reading_of(decoded)->Err_0 == Error::Parse(decoded->Err_0),
{
}

/// An error in words names its kind and ends with its reason.
pub proof fn errors_say_their_kind_and_reason(error: Error)
    ensures
        match error {
            Error::Internal(reason) => error@.message() == "Internal error: "@ + reason@,
            Error::Parse(reason) => error@.message() == "Parse error: "@ + reason@,
            Error::WebSocket(reason) => error@.message() == "WebSockets error: "@ + reason@,
            Error::Problem(problem) => match problem.p_type {
                ProblemType::Other(uri) => error@.message() == "Request failed: "@ + uri@,
            },
        },
{
}

/// Two errors look the same only where they are of one kind and hold the same.
pub proof fn errors_are_told_apart(a: Error, b: Error)
    ensures
        a@ == b@ <==> match (a, b) {
            (Error::Internal(a), Error::Internal(b)) => a@ == b@,
            (Error::Parse(a), Error::Parse(b)) => a@ == b@,
            (Error::WebSocket(a), Error::WebSocket(b)) => a@ == b@,
            (Error::Problem(a), Error::Problem(b)) => a == b,
            _ => false,
        },
{
}

/// The error of a client without a connection, and that of a request that waited too long, whatever the
/// time.
pub proof fn client_errors_say_what_is_wrong(error: Error, text: Seq<char>)
    ensures
        error@ == not_connected() <==> (error is Internal && error->Internal_0@
            == "Websocket stream not set."@),
        error@ == timed_out_view(text) <==> (error is Internal && error->Internal_0@
            == "WebSocket response timed out after "@ + text + "."@),
{
}

/// A text that is lent is the text that is held, and is lent wherever one is held.
pub proof fn lent_texts_are_those_held(borrowed: Option<&str>, owned: Option<String>)
    requires
        lends(borrowed, owned),
    ensures
        borrowed is Some <==> owned is Some,
        owned is Some ==> borrowed->0@ == owned->0@,
{
}

/// The JSON of an object goes out as it was written, in a text message, whatever it says; what could
/// not be written is an error with its reason.
pub proof fn written_texts_go_out_unchanged(
    json: Result<String, String>,
    message: Result<Message, Error>,
)
    requires
        call_ensures(serialize_ws_message, (json,), message),
    ensures
        message is Ok <==> json is Ok,
        json is Ok ==> message->Ok_0 == Message::Text(json->Ok_0),
        json is Err ==> message->Err_0 == Error::Parse(json->Err_0),
{
}

/// What the connection took is sent, and what it did not take is an error with its reason; a request
/// that was sent is known by the id that it went out under.
pub proof fn only_what_was_refused_is_an_error(
    request_id: String,
    outcome: Result<(), String>,
    result: Result<(), Error>,
    sent: Result<String, Error>,
)
    requires
        call_ensures(transmitted, (outcome,), result),
        call_ensures(sent_ws, (request_id, outcome), sent),
    ensures
        result is Ok <==> outcome is Ok,
        sent is Ok <==> outcome is Ok,
        outcome is Ok ==> sent->Ok_0 == request_id,
        outcome is Err ==> result->Err_0 == Error::WebSocket(outcome->Err_0) && sent->Err_0
            == Error::WebSocket(outcome->Err_0),
{
}

/// Certificates are accepted unseen only where that was asked for, and only over TLS.
pub proof fn certificates_are_checked_unless_waived(waived: bool, url: &str, accepts: bool)
    requires
        call_ensures(accepts_any_cert, (waived, url), accepts),
    ensures
        accepts ==> waived,
        accepts ==> url@.len() >= 3 && url@[0] == 'w' && url@[1] == 's' && url@[2] == 's',
        waived && url@.len() >= 3 && url@[0] == 'w' && url@[1] == 's' && url@[2] == 's' ==> accepts,
{
    reveal_strlit("wss");
    if accepts {
        assert(url@.subrange(0, 3)[0] == 'w' && url@.subrange(0, 3)[1] == 's' && url@.subrange(
            0,
            3,
        )[2] == 's');
    } else if waived && url@.len() >= 3 && url@[0] == 'w' && url@[1] == 's' && url@[2] == 's' {
        assert("wss"@ =~= url@.subrange(0, 3));
    }
}

/// Notifications are asked for of exactly the kinds of objects, and from exactly the push state, that
/// the user gave.
pub proof fn notifications_are_asked_for_as_given(
    data_types: Option<Vec<DataType>>,
    push_state: Option<String>,
    object: WebSocketPushEnable,
)
    requires
        call_ensures(push_enable, (data_types, push_state), object),
    ensures
        object.data_types == data_types,
        object.push_state == push_state,
{
}

/// The object that goes out for a request bears the request's id and asks for what the request asks.
pub proof fn outgoing_objects_bear_their_id(
    request_id: String,
    request: Request,
    object: WebSocketRequest,
)
    requires
        call_ensures(into_request_object, (request_id, request), object),
    ensures
        object.id == Some(request_id),
        object.using == request.using,
        object.method_calls == request.method_calls,
        object.created_ids == request.created_ids,
{
}

/// The request that is made for a URL and an authorization carries that authorization, whatever it is,
/// and goes to that URL; only a URL of no use is refused.
pub proof fn made_requests_are_authorized(
    url: &str,
    authorization: &str,
    made: Result<HttpRequest<()>, Error>,
)
    requires
        call_ensures(jmap_request, (url, authorization), made),
    ensures
        made is Ok <==> client_request_of(url@) is Ok,
        made is Ok ==> {
            &&& request_uri(made->Ok_0) == (client_request_of(url@)->Ok_0).0
            &&& request_headers(made->Ok_0)["authorization"@] == seq![encode_utf8(authorization@)]
            &&& request_headers(made->Ok_0)["sec-websocket-protocol"@] == seq![encode_utf8("jmap"@)]
        },
        made is Err ==> (made->Err_0 matches Error::WebSocket(told) && told@ == client_request_of(
            url@,
        )->Err_0),
{
}

/// Requests made with two authorizations for one URL differ in their authorization, wherever the two
/// do.
pub proof fn authorizations_are_kept_apart(
    url: &str,
    a: &str,
    b: &str,
    made_a: HttpRequest<()>,
    made_b: HttpRequest<()>,
)
    requires
        call_ensures(jmap_request, (url, a), Ok(made_a)),
        call_ensures(jmap_request, (url, b), Ok(made_b)),
        encode_utf8(a@) != encode_utf8(b@),
    ensures
        request_headers(made_a)["authorization"@] != request_headers(made_b)["authorization"@],
{
    assert(request_headers(made_a)["authorization"@][0] == encode_utf8(a@));
    assert(request_headers(made_b)["authorization"@][0] == encode_utf8(b@));
}

/// A client is handed what it needs to open a connection with its own authorization, wherever it knows
/// a usable endpoint.
pub proof fn clients_open_with_their_authorization(
    client: &Client,
    opened: Result<WsHandshake, Error>,
)
    requires
        call_ensures(Client::open_ws, (client,), opened),
    ensures
        opened is Ok <==> (client@.websocket is Some && client_request_of(client@.websocket->0) is Ok),
        opened is Ok ==> request_headers(opened->Ok_0.request)["authorization"@] == seq![
            encode_utf8(client@.authorization),
        ],
{
    openings_go_to_the_endpoint(client@, opened);
}

/// A text that begins with another is at least as long and has the same characters there.
pub proof fn prefixes_agree(text: &str, prefix: &str, begins: bool)
    requires
        call_ensures(starts_with, (text, prefix), begins),
    ensures
        begins <==> (prefix@.len() <= text@.len() && forall|i: int|
            0 <= i < prefix@.len() ==> #[trigger] prefix@[i] == text@[i]),
{
    if begins {
        assert forall|i: int| 0 <= i < prefix@.len() implies #[trigger] prefix@[i] == text@[i] by {
            assert(text@.subrange(0, prefix@.len() as int)[i] == text@[i]);
        }
    } else if prefix@.len() <= text@.len() && forall|i: int|
        0 <= i < prefix@.len() ==> #[trigger] prefix@[i] == text@[i] {
        assert(prefix@ =~= text@.subrange(0, prefix@.len() as int));
    }
}

} // verus!
