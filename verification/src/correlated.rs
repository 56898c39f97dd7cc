//! A connection that takes each response to whoever waits for it.
//!
//! The connection itself sends and waits for nothing: it decides what to send, and what is to happen
//! after each event of a [`CorrelatedWs::send`] and of the reader of the connection.
use vstd::prelude::*;

use crate::error::{Error, ErrorView};
use crate::ids::CorrelatedWsTx;
use crate::model::{DataType, PushObject, Request, Response, TaggedMethodResponse};
use crate::pending::{
    fail_pending_responses, fails_all, resolve_ws_error, resolve_ws_response, Delivery,
    PendingResponses,
};
use crate::text::{decimal, decimal_is_injective, join};
use crate::timeout::{duration_text, Timeout};
use crate::wire::{
    parse_ws_message, problem_of, reading_of, response_of, Message, WebSocketMessage_,
    WebSocketPushDisable, WebSocketPushDisableType, WebSocketPushEnable, WebSocketPushEnableType,
    WebSocketRequest, WebSocketRequestType,
};

verus! {

/// How many notifications may lie unread before the reader of a connection waits.
pub const PUSH_CHANNEL_BUFFER: usize = 64;

/// The object that asks a server for what `request` asks, under the id `request_id`.
pub open spec fn request_object(request_id: String, request: Request) -> WebSocketRequest {
    WebSocketRequest {
        _type: WebSocketRequestType::Request,
        id: Some(request_id),
        using: request.using,
        method_calls: request.method_calls,
        created_ids: request.created_ids,
    }
}

/// The object that asks a server for what `request` asks, under the id `request_id`.
pub fn into_request_object(request_id: String, request: Request) -> (object: WebSocketRequest)
    ensures
        object == request_object(request_id, request),
        object.id == Some(request_id),
        object.using == request.using,
        object.method_calls == request.method_calls,
        object.created_ids == request.created_ids,
{
    WebSocketRequest {
        _type: WebSocketRequestType::Request,
        id: Some(request_id),
        using: request.using,
        method_calls: request.method_calls,
        created_ids: request.created_ids,
    }
}

/// The object that asks a server to push notifications.
pub fn push_enable(data_types: Option<Vec<DataType>>, push_state: Option<String>) -> (object:
    WebSocketPushEnable)
    ensures
        object == (WebSocketPushEnable {
            _type: WebSocketPushEnableType::WebSocketPushEnable,
            data_types,
            push_state,
        }),
{
    WebSocketPushEnable {
        _type: WebSocketPushEnableType::WebSocketPushEnable,
        data_types,
        push_state,
    }
}

/// The object that asks a server to push no more notifications.
pub fn push_disable() -> (object: WebSocketPushDisable)
    ensures
        object == (WebSocketPushDisable { _type: WebSocketPushDisableType::WebSocketPushDisable }),
{
    WebSocketPushDisable { _type: WebSocketPushDisableType::WebSocketPushDisable }
}

/// The message that asks the other side for a sign of life.
pub fn ping() -> (message: Message)
    ensures
        message matches Message::Ping(payload) && payload@.len() == 0,
{
    Message::Ping(Vec::new())
}

/// A request that is ready to be sent.
#[derive(Debug)]
pub struct Outgoing {
    pub request_id: String,
    pub object: WebSocketRequest,
}

/// What happens to a request after [`CorrelatedWs::send`].
#[derive(Debug)]
pub enum SendEvent {
    /// Its JSON could not be written, for this reason.
    NotSerialized(String),
    /// It could not be sent, for this reason.
    NotSent(String),
    /// It was sent.
    Sent,
    /// It was answered.
    Answered(Result<Response<TaggedMethodResponse>, Error>),
    /// It was given up without an answer by whoever was to bring one.
    ChannelClosed,
    /// It was not answered in time.
    TimedOut,
}

/// What a request came to.
#[derive(Debug)]
pub struct SendOutcome {
    pub result: Result<Response<TaggedMethodResponse>, Error>,
    /// The session state to hand to the client.
    pub session_state: Option<String>,
    /// Who waits no more and is not to be answered.
    pub abandoned: Option<u64>,
}

/// What happens to the reader of a connection.
#[derive(Debug)]
pub enum ReaderEvent {
    /// The connection is no longer used.
    Shutdown,
    /// A message came in, and this is what was read in it.
    Parsed(Option<Result<WebSocketMessage_, Error>>),
    /// The stream of messages failed, for this reason.
    Failed(String),
    /// The stream of messages ended.
    Closed,
}

/// Whether the reader of a connection goes on.
#[derive(Clone, Copy, Debug, PartialEq, Eq)]
pub enum NextStep {
    Continue,
    /// It stops where there is nobody left to take notifications.
    StopIfUnheard,
    Stop,
}

/// What the reader of a connection does after an event, in this order.
#[derive(Debug)]
pub struct ReaderStep {
    /// The answers to bring.
    pub deliveries: Vec<Delivery>,
    /// What to hand to whoever takes notifications.
    pub push: Option<Result<PushObject, Error>>,
    pub next: NextStep,
}

/// What the end of a connection takes.
#[derive(Debug)]
pub struct Closing {
    /// Whether the reader of the connection is to be told.
    pub signal: bool,
    /// The answers to bring.
    pub deliveries: Vec<Delivery>,
}

/// What a [`CorrelatedWs`] holds.
pub struct CorrelatedView {
    /// The number of the client that opened the connection.
    pub client: u64,
    /// How long a request waits.
    pub timeout: Timeout,
    /// The number of the next request.
    pub req_id: u64,
    /// The waiter of each request that waits.
    pub pending: Map<Seq<char>, u64>,
    /// Whether the reader of the connection has still to be told when the connection ends.
    pub armed: bool,
}

impl CorrelatedView {
    /// Whether requests wait only under ids that were issued.
    pub open spec fn wf(self) -> bool {
        forall|id: Seq<char>| #[trigger]
            self.pending.contains_key(id) ==> was_issued(id, self.req_id)
    }
}

/// Whether `id` was issued before the number `req_id`.
pub open spec fn was_issued(id: Seq<char>, req_id: u64) -> bool {
    exists|number: nat| number < req_id && #[trigger] decimal(number) == id
}

/// The id of the next request is not one that anybody waits under: on a connection, asking for an id
/// never ends in a collision.
pub proof fn next_id_is_free(ws: CorrelatedView)
    requires
        ws.wf(),
    ensures
        !ws.pending.contains_key(decimal(ws.req_id as nat)),
{
    let id = decimal(ws.req_id as nat);
    if ws.pending.contains_key(id) {
        assert(was_issued(id, ws.req_id));
        let number = choose|number: nat| number < ws.req_id && #[trigger] decimal(number) == id;
        decimal_is_injective(number, ws.req_id as nat);
    }
}

/// What [`CorrelatedWs::send`] leaves behind: the request waits under the next number, unless the
/// request is not of this client or the numbers are used up.
pub open spec fn after_send(ws: CorrelatedView, request: Request, waiter: u64) -> CorrelatedView {
    if request.client != ws.client || ws.req_id == u64::MAX {
        ws
    } else {
        CorrelatedView {
            req_id: (ws.req_id + 1) as u64,
            pending: ws.pending.insert(decimal(ws.req_id as nat), waiter),
            ..ws
        }
    }
}

/// What an event of a request leaves behind.
pub open spec fn after_send_event(
    ws: CorrelatedView,
    id: Seq<char>,
    event: SendEvent,
) -> CorrelatedView {
    if gives_up_waiting(event) {
        CorrelatedView { pending: ws.pending.remove(id), ..ws }
    } else {
        ws
    }
}

/// Whether nobody is to wait for the response any more after `event`.
pub open spec fn gives_up_waiting(event: SendEvent) -> bool {
    event is NotSent || event is ChannelClosed || event is TimedOut
}

/// What a request has come to at `event`, if anything; `timeout` is the time that it may wait.
pub open spec fn sent_result(event: SendEvent, timeout: Timeout) -> Option<
    Result<Response<TaggedMethodResponse>, ErrorView>,
> {
    match event {
        SendEvent::NotSerialized(reason) => Some(Err(ErrorView::Parse(reason@))),
        SendEvent::NotSent(reason) => Some(Err(ErrorView::WebSocket(reason@))),
        SendEvent::Sent => None,
        SendEvent::Answered(Ok(response)) => Some(Ok(response)),
        SendEvent::Answered(Err(error)) => Some(Err(error@)),
        SendEvent::ChannelClosed => Some(
            Err(ErrorView::Internal("WebSocket response channel closed."@)),
        ),
        SendEvent::TimedOut => Some(Err(timed_out_view(timeout.text()))),
    }
}

/// The error of a request that waited for the time `text` in vain.
pub open spec fn timed_out_view(text: Seq<char>) -> ErrorView {
    ErrorView::Internal("WebSocket response timed out after "@ + text + "."@)
}

/// The error of a request that waited for the time `text` in vain.
pub fn timed_out(text: String) -> (error: Error)
    ensures
        error@ == timed_out_view(text@),
{
    Error::Internal(join("WebSocket response timed out after ", text.as_str(), "."))
}

/// Whether `result` is what `expected` says.
pub open spec fn is_result(
    result: Result<Response<TaggedMethodResponse>, Error>,
    expected: Result<Response<TaggedMethodResponse>, ErrorView>,
) -> bool {
    match result {
        Ok(response) => expected == Ok::<Response<TaggedMethodResponse>, ErrorView>(response),
        Err(error) => expected == Err::<Response<TaggedMethodResponse>, ErrorView>(error@),
    }
}

/// Whether `state` is the session state of `result`, which only a response has.
pub open spec fn is_session_state(
    state: Option<String>,
    result: Result<Response<TaggedMethodResponse>, Error>,
) -> bool {
    match result {
        Ok(response) => state matches Some(text) && text@ == response.session_state@,
        Err(_) => state is None,
    }
}

/// Whether the reader does nothing but go on as `next` says.
pub open spec fn does_nothing(step: ReaderStep, next: NextStep) -> bool {
    step.deliveries@.len() == 0 && step.push is None && step.next == next
}

/// Whether the reader brings `outcome` to the one who waits for the response to the request `id`, and
/// does nothing where nobody does, and goes on.
pub open spec fn brings(
    step: ReaderStep,
    pending: Map<Seq<char>, u64>,
    id: Seq<char>,
    outcome: Result<Response<TaggedMethodResponse>, Error>,
) -> bool {
    &&& step.deliveries@ == (if pending.contains_key(id) {
        seq![Delivery { waiter: pending[id], outcome }]
    } else {
        seq![]
    })
    &&& step.push is None
    &&& step.next == NextStep::Continue
}

/// Whether the reader tells everyone who waits that the request failed for the reason `text`, hands
/// on `error`, and stops.
pub open spec fn breaks_down(
    step: ReaderStep,
    pending: Map<Seq<char>, u64>,
    text: Seq<char>,
    error: ErrorView,
) -> bool {
    &&& fails_all(pending, step.deliveries@, text)
    &&& step.push matches Some(Err(pushed)) && pushed@ == error
    &&& step.next == NextStep::Stop
}

/// The error that the reader breaks down on at `event`, if it does, with the reason that those who
/// wait are told.
pub open spec fn breakdown(event: ReaderEvent) -> Option<(Seq<char>, ErrorView)> {
    match event {
        ReaderEvent::Shutdown => None,
        ReaderEvent::Parsed(None) => None,
        ReaderEvent::Parsed(Some(Ok(WebSocketMessage_::Response(response)))) => {
            let error = ErrorView::Internal("WebSocket response missing requestId."@);
            if response.request_id is None {
                Some((error.message(), error))
            } else {
                None
            }
        },
        ReaderEvent::Parsed(Some(Ok(WebSocketMessage_::PushNotification(_)))) => None,
        ReaderEvent::Parsed(Some(Ok(WebSocketMessage_::Error(problem)))) => {
            let error = ErrorView::Internal("WebSocket error missing requestId."@);
            if problem.request_id is None {
                Some((error.message(), error))
            } else {
                None
            }
        },
        ReaderEvent::Parsed(Some(Err(error))) => Some((error@.message(), error@)),
        ReaderEvent::Failed(reason) => {
            let error = ErrorView::WebSocket(reason@);
            Some((error.message(), error))
        },
        ReaderEvent::Closed => {
            let text = "WebSocket stream closed."@;
            Some((text, ErrorView::Internal(text)))
        },
    }
}

/// Who is still waiting after `event`.
pub open spec fn after_reader_event(
    pending: Map<Seq<char>, u64>,
    event: ReaderEvent,
) -> Map<Seq<char>, u64> {
    if breakdown(event) is Some {
        Map::empty()
    } else {
        match event {
            ReaderEvent::Parsed(Some(Ok(WebSocketMessage_::Response(response)))) => pending.remove(
                response.request_id->0@,
            ),
            ReaderEvent::Parsed(Some(Ok(WebSocketMessage_::Error(problem)))) => pending.remove(
                problem.request_id->0@,
            ),
            _ => pending,
        }
    }
}

/// Whether `step` is what the reader does at `event`, where `pending` wait.
pub open spec fn is_reader_step(
    pending: Map<Seq<char>, u64>,
    event: ReaderEvent,
    step: ReaderStep,
) -> bool {
    match breakdown(event) {
        Some((text, error)) => breaks_down(step, pending, text, error),
        None => match event {
            ReaderEvent::Parsed(Some(Ok(WebSocketMessage_::Response(response)))) => brings(
                step,
                pending,
                response.request_id->0@,
                Ok(response_of(response)),
            ),
            ReaderEvent::Parsed(Some(Ok(WebSocketMessage_::Error(problem)))) => brings(
                step,
                pending,
                problem.request_id->0@,
                Err(Error::Problem(problem_of(problem))),
            ),
            ReaderEvent::Parsed(Some(Ok(WebSocketMessage_::PushNotification(push)))) => {
                &&& step.deliveries@.len() == 0
                &&& step.push == Some(Ok::<PushObject, Error>(push.push))
                &&& step.next == NextStep::StopIfUnheard
            },
            ReaderEvent::Shutdown => does_nothing(step, NextStep::Stop),
            _ => does_nothing(step, NextStep::Continue),
        },
    }
}

/// Whether a reader that is to go on as `next` says stops, where `unheard` says that nobody is left to
/// take notifications.
pub open spec fn stops(next: NextStep, unheard: bool) -> bool {
    next == NextStep::Stop || (next == NextStep::StopIfUnheard && unheard)
}

/// Whether the reader of a connection stops, once it knows whether anybody is left to take
/// notifications.
pub fn reader_stops(next: NextStep, unheard: bool) -> (stopped: bool)
    ensures
        stopped == stops(next, unheard),
{
    match next {
        NextStep::Continue => false,
        NextStep::StopIfUnheard => unheard,
        NextStep::Stop => true,
    }
}

/// A connection that takes each response to whoever waits for it.
#[derive(Debug)]
pub struct CorrelatedWs {
    client: u64,
    timeout: Timeout,
    tx: CorrelatedWsTx,
    pending: PendingResponses,
    armed: bool,
}

impl View for CorrelatedWs {
    type V = CorrelatedView;

    closed spec fn view(&self) -> CorrelatedView {
        CorrelatedView {
            client: self.client,
            timeout: self.timeout,
            req_id: self.tx@,
            pending: self.pending@,
            armed: self.armed,
        }
    }
}

impl CorrelatedWs {
    /// A connection that was just opened by the client with the number `client`.
    pub fn new(client: u64, timeout: Timeout) -> (ws: CorrelatedWs)
        ensures
            ws@ == (CorrelatedView {
                client,
                timeout,
                req_id: 0,
                pending: Map::empty(),
                armed: true,
            }),
            ws@.wf(),
    {
        CorrelatedWs {
            client,
            timeout,
            tx: CorrelatedWsTx::new(),
            pending: PendingResponses::new(),
            armed: true,
        }
    }

    /// Prepares a request to be sent, and lets `waiter` wait for the response.
    pub fn send(&mut self, request: Request, waiter: u64) -> (outgoing: Result<Outgoing, Error>)
        requires
            old(self)@.wf(),
        ensures
            final(self)@.wf(),
            final(self)@ == after_send(old(self)@, request, waiter),
            match outgoing {
                Ok(outgoing) => {
                    &&& request.client == old(self)@.client
                    &&& old(self)@.req_id < u64::MAX
                    &&& outgoing.request_id@ == decimal(old(self)@.req_id as nat)
                    &&& outgoing.object == request_object(outgoing.request_id, request)
                    &&& outgoing.object.id == Some(outgoing.request_id)
                    &&& outgoing.object.using == request.using
                    &&& outgoing.object.method_calls == request.method_calls
                    &&& outgoing.object.created_ids == request.created_ids
                    &&& final(self)@.pending == old(self)@.pending.insert(
                        outgoing.request_id@,
                        waiter,
                    )
                },
                Err(error) if request.client != old(self)@.client => error@ == ErrorView::Internal(
                    "Request was built by a different Client than this websocket connection."@,
                ),
                Err(error) => old(self)@.req_id == u64::MAX && error@ == ErrorView::Internal(
                    "WebSocket request id overflow."@,
                ),
            },
    {
        if !request.is_built_by(self.client) {
            return Err(
                Error::internal(
                    "Request was built by a different Client than this websocket connection.",
                ),
            );
        }
        proof {
            next_id_is_free(self@);
        }
        let request_id: String = match self.tx.next_request_id(&self.pending) {
            Ok(request_id) => request_id,
            Err(error) => {
                return Err(error);
            },
        };
        self.pending.insert(request_id.clone(), waiter);
        proof {
            let number = old(self)@.req_id as nat;
            assert forall|id: Seq<char>| #[trigger] self@.pending.contains_key(id) implies was_issued(
                id,
                self@.req_id,
            ) by {
                if id == decimal(number) {
                    assert(number < self@.req_id && decimal(number) == id);
                } else {
                    assert(was_issued(id, old(self)@.req_id));
                    let earlier = choose|earlier: nat|
                        earlier < old(self)@.req_id && #[trigger] decimal(earlier) == id;
                    assert(earlier < self@.req_id && decimal(earlier) == id);
                }
            }
        }
        let object = into_request_object(request_id.clone(), request);
        Ok(Outgoing { request_id, object })
    }

    /// What the request `request_id` has come to at `event`: nothing yet where it was merely sent.
    pub fn on_send_event(&mut self, request_id: &String, event: SendEvent) -> (outcome: Option<
        SendOutcome,
    >)
        requires
            old(self)@.wf(),
        ensures
            final(self)@.wf(),
            final(self)@ == after_send_event(old(self)@, request_id@, event),
            match outcome {
                Some(outcome) => {
                    &&& sent_result(event, old(self)@.timeout) matches Some(expected) && is_result(
                        outcome.result,
                        expected,
                    )
                    &&& is_session_state(outcome.session_state, outcome.result)
                    &&& outcome.abandoned == (if gives_up_waiting(event) {
                        old(self)@.pending.get(request_id@)
                    } else {
                        None
                    })
                },
                None => event is Sent,
            },
            match event {
                SendEvent::Sent => outcome is None,
                SendEvent::Answered(Ok(response)) => outcome matches Some(outcome)
                    && outcome.result == Ok::<Response<TaggedMethodResponse>, Error>(response)
                    && outcome.session_state is Some && outcome.session_state->0@
                    == response.session_state@ && outcome.abandoned is None,
                SendEvent::Answered(Err(error)) => outcome matches Some(outcome) && outcome.result
                    == Err::<Response<TaggedMethodResponse>, Error>(error)
                    && outcome.session_state is None && outcome.abandoned is None,
                SendEvent::NotSerialized(reason) => outcome matches Some(outcome) && outcome.result
                    == Err::<Response<TaggedMethodResponse>, Error>(Error::Parse(reason))
                    && outcome.session_state is None && outcome.abandoned is None,
                SendEvent::NotSent(reason) => outcome matches Some(outcome) && outcome.result
                    == Err::<Response<TaggedMethodResponse>, Error>(Error::WebSocket(reason))
                    && outcome.session_state is None && outcome.abandoned
                    == old(self)@.pending.get(request_id@),
                SendEvent::ChannelClosed => {
                    &&& outcome matches Some(outcome)
                    &&& outcome.session_state is None
                    &&& outcome.abandoned == old(self)@.pending.get(request_id@)
                    &&& outcome.result matches Err(Error::Internal(text))
                    &&& text@ == "WebSocket response channel closed."@
                },
                SendEvent::TimedOut => {
                    &&& outcome matches Some(outcome)
                    &&& outcome.session_state is None
                    &&& outcome.abandoned == old(self)@.pending.get(request_id@)
                    &&& outcome.result matches Err(Error::Internal(text))
                    &&& text@ == "WebSocket response timed out after "@ + duration_text(
                        old(self)@.timeout.secs(),
                        old(self)@.timeout.nanos(),
                    ) + "."@
                },
            },
            match event {
                SendEvent::NotSent(_) | SendEvent::ChannelClosed | SendEvent::TimedOut => {
                    final(self)@.pending == old(self)@.pending.remove(request_id@)
                },
                _ => final(self)@.pending == old(self)@.pending,
            },
    {
        match event {
            SendEvent::Sent => None,
            SendEvent::NotSerialized(reason) => Some(
                SendOutcome {
                    result: Err(Error::Parse(reason)),
                    session_state: None,
                    abandoned: None,
                },
            ),
            SendEvent::NotSent(reason) => {
                let abandoned: Option<u64> = self.pending.remove(request_id);
                Some(
                    SendOutcome {
                        result: Err(Error::WebSocket(reason)),
                        session_state: None,
                        abandoned,
                    },
                )
            },
            SendEvent::Answered(Ok(response)) => {
                let session_state: String = response.session_state().to_string();
                Some(
                    SendOutcome {
                        result: Ok(response),
                        session_state: Some(session_state),
                        abandoned: None,
                    },
                )
            },
            SendEvent::Answered(Err(error)) => Some(
                SendOutcome { result: Err(error), session_state: None, abandoned: None },
            ),
            SendEvent::ChannelClosed => {
                let abandoned: Option<u64> = self.pending.remove(request_id);
                Some(
                    SendOutcome {
                        result: Err(Error::internal("WebSocket response channel closed.")),
                        session_state: None,
                        abandoned,
                    },
                )
            },
            SendEvent::TimedOut => {
                let abandoned: Option<u64> = self.pending.remove(request_id);
                let text: String = self.timeout.describe();
                Some(
                    SendOutcome {
                        result: Err(timed_out(text)),
                        session_state: None,
                        abandoned,
                    },
                )
            },
        }
    }

    /// Asks the server to push notifications of `data_types`, or of everything.
    pub fn enable_push_ws(
        &self,
        data_types: Option<Vec<DataType>>,
        push_state: Option<String>,
    ) -> (object: WebSocketPushEnable)
        ensures
            object == (WebSocketPushEnable {
                _type: WebSocketPushEnableType::WebSocketPushEnable,
                data_types,
                push_state,
            }),
    {
        push_enable(data_types, push_state)
    }

    /// Asks the server to push no more notifications.
    pub fn disable_push_ws(&self) -> (object: WebSocketPushDisable)
        ensures
            object == (WebSocketPushDisable {
                _type: WebSocketPushDisableType::WebSocketPushDisable,
            }),
    {
        push_disable()
    }

    /// Asks the server for a sign of life.
    pub fn ws_ping(&self) -> (message: Message)
        ensures
            message matches Message::Ping(payload) && payload@.len() == 0,
    {
        ping()
    }

    /// Tells everyone who waits that the request failed for the reason `text`, and hands on `error`.
    fn break_down(&mut self, text: String, error: Error) -> (step: ReaderStep)
        ensures
            final(self)@ == (CorrelatedView { pending: Map::empty(), ..old(self)@ }),
            breaks_down(step, old(self)@.pending, text@, error@),
    {
        let deliveries: Vec<Delivery> = fail_pending_responses(&mut self.pending, text);
        ReaderStep { deliveries, push: Some(Err(error)), next: NextStep::Stop }
    }

    /// Brings the answer that was found for a message, or breaks down on what was wrong with it.
    fn after_resolve(&mut self, resolved: Result<Option<Delivery>, Error>) -> (step: ReaderStep)
        ensures
            match resolved {
                Ok(delivered) => {
                    &&& final(self)@ == old(self)@
                    &&& step.deliveries@ == (match delivered {
                        Some(delivery) => seq![delivery],
                        None => seq![],
                    })
                    &&& step.push is None
                    &&& step.next == NextStep::Continue
                },
                Err(error) => {
                    &&& final(self)@ == (CorrelatedView { pending: Map::empty(), ..old(self)@ })
                    &&& breaks_down(step, old(self)@.pending, error@.message(), error@)
                },
            },
    {
        match resolved {
            Ok(delivered) => {
                let mut deliveries: Vec<Delivery> = Vec::new();
                if let Some(delivery) = delivered {
                    deliveries.push(delivery);
                }
                ReaderStep { deliveries, push: None, next: NextStep::Continue }
            },
            Err(error) => {
                let text: String = error.message();
                self.break_down(text, error)
            },
        }
    }

    /// What the reader of the connection does at `event`.
    pub fn on_reader_event(&mut self, event: ReaderEvent) -> (step: ReaderStep)
        requires
            old(self)@.wf(),
        ensures
            final(self)@.wf(),
            final(self)@ == (CorrelatedView {
                pending: after_reader_event(old(self)@.pending, event),
                ..old(self)@
            }),
            is_reader_step(old(self)@.pending, event, step),
    {
        let step = match event {
            ReaderEvent::Shutdown => ReaderStep {
                deliveries: Vec::new(),
                push: None,
                next: NextStep::Stop,
            },
            ReaderEvent::Parsed(None) => ReaderStep {
                deliveries: Vec::new(),
                push: None,
                next: NextStep::Continue,
            },
            ReaderEvent::Parsed(Some(Ok(WebSocketMessage_::Response(response)))) => {
                let resolved = resolve_ws_response(&mut self.pending, response);
                self.after_resolve(resolved)
            },
            ReaderEvent::Parsed(Some(Ok(WebSocketMessage_::PushNotification(push)))) => ReaderStep {
                deliveries: Vec::new(),
                push: Some(Ok(push.push)),
                next: NextStep::StopIfUnheard,
            },
            ReaderEvent::Parsed(Some(Ok(WebSocketMessage_::Error(problem)))) => {
                let resolved = resolve_ws_error(&mut self.pending, problem);
                self.after_resolve(resolved)
            },
            ReaderEvent::Parsed(Some(Err(error))) => {
                let text: String = error.message();
                self.break_down(text, error)
            },
            ReaderEvent::Failed(reason) => {
                let error = Error::WebSocket(reason);
                let text: String = error.message();
                self.break_down(text, error)
            },
            ReaderEvent::Closed => {
                let text: String = "WebSocket stream closed.".to_string();
                let error = Error::Internal(text.clone());
                self.break_down(text, error)
            },
        };
        assert forall|id: Seq<char>| #[trigger] self@.pending.contains_key(id) implies was_issued(
            id,
            self@.req_id,
        ) by {
            assert(old(self)@.pending.contains_key(id));
        }
        step
    }

    /// What the reader of the connection does with a message, which it reads with the JSON reader
    /// `decode`.
    pub fn on_message<D: Fn(String) -> Result<WebSocketMessage_, String>>(
        &mut self,
        message: Message,
        decode: D,
    ) -> (step: ReaderStep)
        requires
            old(self)@.wf(),
            message matches Message::Text(text) ==> call_requires(decode, (text,)),
        ensures
            final(self)@.wf(),
            exists|event: ReaderEvent| #[trigger]
                is_reading(message, decode, event) && final(self)@ == (CorrelatedView {
                    pending: after_reader_event(old(self)@.pending, event),
                    ..old(self)@
                }) && is_reader_step(old(self)@.pending, event, step),
    {
        let ghost incoming = message;
        let parsed = parse_ws_message(message, decode);
        let event = ReaderEvent::Parsed(parsed);
        assert(is_reading(incoming, decode, event));
        self.on_reader_event(event)
    }

    /// Ends the connection: the reader is told once, and everyone who waits is told that the
    /// connection is gone.
    pub fn shut_down(&mut self) -> (closing: Closing)
        requires
            old(self)@.wf(),
        ensures
            final(self)@.wf(),
            final(self)@ == (CorrelatedView {
                armed: false,
                pending: Map::empty(),
                ..old(self)@
            }),
            closing.signal == old(self)@.armed,
            fails_all(
                old(self)@.pending,
                closing.deliveries@,
                "WebSocket connection dropped."@,
            ),
    {
        let signal: bool = self.armed;
        self.armed = false;
        let deliveries: Vec<Delivery> = fail_pending_responses(
            &mut self.pending,
            "WebSocket connection dropped.".to_string(),
        );
        Closing { signal, deliveries }
    }
}

/// Whether `event` is what the JSON reader `decode` makes of `message`.
pub open spec fn is_reading<D: Fn(String) -> Result<WebSocketMessage_, String>>(
    message: Message,
    decode: D,
    event: ReaderEvent,
) -> bool {
    match message {
        Message::Text(text) => exists|decoded: Result<WebSocketMessage_, String>| #[trigger]
            call_ensures(decode, (text,), decoded) && event == ReaderEvent::Parsed(
                Some(reading_of(decoded)),
            ),
        _ => event == ReaderEvent::Parsed(None),
    }
}

} // verus!
