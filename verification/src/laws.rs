//! What holds of connections as a whole.
use vstd::prelude::*;

use crate::correlated::{
    after_reader_event, after_send, after_send_event, breakdown, gives_up_waiting, is_reader_step,
    next_id_is_free, stops, was_issued, CorrelatedView, NextStep, ReaderEvent, ReaderStep, SendEvent,
};
use crate::error::Error;
use crate::ids::issued;
use crate::model::{PushObject, Request};
use crate::pending::{enumerates, fails, fails_all, Delivery};
use crate::stream::{present, present_of_both};
use crate::text::{decimal, decimal_is_injective};
use crate::wire::{
    problem_of, response_of, WebSocketError, WebSocketMessage_, WebSocketPushObject,
    WebSocketResponse,
};

verus! {

/// The event that a response came in.
pub open spec fn response_event(response: WebSocketResponse) -> ReaderEvent {
    ReaderEvent::Parsed(Some(Ok(WebSocketMessage_::Response(response))))
}

/// The event that a server's error came in.
pub open spec fn error_event(problem: WebSocketError) -> ReaderEvent {
    ReaderEvent::Parsed(Some(Ok(WebSocketMessage_::Error(problem))))
}

/// The event that a notification came in.
pub open spec fn push_event(push: WebSocketPushObject) -> ReaderEvent {
    ReaderEvent::Parsed(Some(Ok(WebSocketMessage_::PushNotification(push))))
}

/// The id of the request that `event` answers, if it answers any.
pub open spec fn answered_id(event: ReaderEvent) -> Option<Seq<char>> {
    match event {
        ReaderEvent::Parsed(Some(Ok(WebSocketMessage_::Response(response)))) => {
            match response.request_id {
                Some(id) => Some(id@),
                None => None,
            }
        },
        ReaderEvent::Parsed(Some(Ok(WebSocketMessage_::Error(problem)))) => {
            match problem.request_id {
                Some(id) => Some(id@),
                None => None,
            }
        },
        _ => None,
    }
}

/// Different numbers never give the same request id.
pub proof fn request_ids_differ(
    a: u64,
    b: u64,
    pending_a: Option<Map<Seq<char>, u64>>,
    pending_b: Option<Map<Seq<char>, u64>>,
)
    requires
        issued(a, pending_a) is Ok,
        issued(b, pending_b) is Ok,
        a != b,
    ensures
        issued(a, pending_a) != issued(b, pending_b),
{
    if decimal(a as nat) == decimal(b as nat) {
        decimal_is_injective(a as nat, b as nat);
    }
}

/// A connection that has numbers left always has an id for the next request.
pub proof fn connection_always_issues(ws: CorrelatedView)
    requires
        ws.wf(),
        ws.req_id < u64::MAX,
    ensures
        issued(ws.req_id, Some(ws.pending)) is Ok,
{
    next_id_is_free(ws);
}

/// A response that bears the id of a request is brought to whoever sent that request, and then
/// those wait who waited before the request was sent.
pub proof fn response_reaches_its_sender(
    ws: CorrelatedView,
    request: Request,
    waiter: u64,
    response: WebSocketResponse,
    step: ReaderStep,
)
    requires
        ws.wf(),
        request.client == ws.client,
        ws.req_id < u64::MAX,
        response.request_id matches Some(id) && id@ == decimal(ws.req_id as nat),
        is_reader_step(after_send(ws, request, waiter).pending, response_event(response), step),
    ensures
        step.deliveries@ == seq![Delivery { waiter, outcome: Ok(response_of(response)) }],
        after_reader_event(after_send(ws, request, waiter).pending, response_event(response))
            == ws.pending,
{
    next_id_is_free(ws);
    assert(ws.pending.insert(decimal(ws.req_id as nat), waiter).remove(decimal(ws.req_id as nat))
        =~= ws.pending);
}

/// A server's error that bears the id of a request is brought to whoever sent that request, with all
/// that the server said, and then those wait who waited before the request was sent.
pub proof fn error_reaches_its_sender(
    ws: CorrelatedView,
    request: Request,
    waiter: u64,
    problem: WebSocketError,
    step: ReaderStep,
)
    requires
        ws.wf(),
        request.client == ws.client,
        ws.req_id < u64::MAX,
        problem.request_id matches Some(id) && id@ == decimal(ws.req_id as nat),
        is_reader_step(after_send(ws, request, waiter).pending, error_event(problem), step),
    ensures
        step.deliveries@ == seq![
            Delivery { waiter, outcome: Err(Error::Problem(problem_of(problem))) },
        ],
        after_reader_event(after_send(ws, request, waiter).pending, error_event(problem))
            == ws.pending,
{
    next_id_is_free(ws);
    assert(ws.pending.insert(decimal(ws.req_id as nat), waiter).remove(decimal(ws.req_id as nat))
        =~= ws.pending);
}

/// A request that is sent leaves everyone else waiting.
pub proof fn sending_keeps_others_waiting(
    ws: CorrelatedView,
    request: Request,
    waiter: u64,
    other: Seq<char>,
)
    requires
        ws.wf(),
        ws.pending.contains_key(other),
    ensures
        after_send(ws, request, waiter).pending.contains_key(other),
        after_send(ws, request, waiter).pending[other] == ws.pending[other],
{
    next_id_is_free(ws);
}

/// Whatever happens to one request after it was handed over leaves everyone else waiting.
pub proof fn giving_up_keeps_others_waiting(
    ws: CorrelatedView,
    id: Seq<char>,
    event: SendEvent,
    other: Seq<char>,
)
    requires
        other != id,
        ws.pending.contains_key(other),
    ensures
        after_send_event(ws, id, event).pending.contains_key(other),
        after_send_event(ws, id, event).pending[other] == ws.pending[other],
{
}

/// A request that could not be sent, or whose response did not come, leaves those waiting who waited
/// before it was sent.
pub proof fn failed_send_leaves_no_trace(
    ws: CorrelatedView,
    request: Request,
    waiter: u64,
    event: SendEvent,
)
    requires
        ws.wf(),
        request.client == ws.client,
        ws.req_id < u64::MAX,
        gives_up_waiting(event),
    ensures
        after_send_event(
            after_send(ws, request, waiter),
            decimal(ws.req_id as nat),
            event,
        ).pending == ws.pending,
{
    next_id_is_free(ws);
    assert(ws.pending.insert(decimal(ws.req_id as nat), waiter).remove(decimal(ws.req_id as nat))
        =~= ws.pending);
}

/// A response that comes after its request was given up is brought to nobody, and changes nothing.
pub proof fn late_response_reaches_nobody(
    ws: CorrelatedView,
    event: SendEvent,
    response: WebSocketResponse,
    step: ReaderStep,
)
    requires
        gives_up_waiting(event),
        response.request_id is Some,
        is_reader_step(
            after_send_event(ws, response.request_id->0@, event).pending,
            response_event(response),
            step,
        ),
    ensures
        step.deliveries@.len() == 0,
        step.next == NextStep::Continue,
        after_reader_event(
            after_send_event(ws, response.request_id->0@, event).pending,
            response_event(response),
        ) == after_send_event(ws, response.request_id->0@, event).pending,
{
    let id = response.request_id->0@;
    assert(ws.pending.remove(id).remove(id) =~= ws.pending.remove(id));
}

/// A request is answered once: what answers it again is brought to nobody, and changes nothing.
pub proof fn answered_once(
    pending: Map<Seq<char>, u64>,
    first: ReaderEvent,
    second: ReaderEvent,
    step: ReaderStep,
)
    requires
        answered_id(first) is Some,
        answered_id(second) == answered_id(first),
        is_reader_step(after_reader_event(pending, first), second, step),
    ensures
        step.deliveries@.len() == 0,
        step.next == NextStep::Continue,
        after_reader_event(after_reader_event(pending, first), second) == after_reader_event(
            pending,
            first,
        ),
{
    let id = answered_id(first)->0;
    assert(pending.remove(id).remove(id) =~= pending.remove(id));
}

/// An answer to one request leaves everyone else waiting.
pub proof fn others_keep_waiting(pending: Map<Seq<char>, u64>, event: ReaderEvent, other: Seq<char>)
    requires
        answered_id(event) is Some,
        answered_id(event) != Some(other),
    ensures
        after_reader_event(pending, event).contains_key(other) == pending.contains_key(other),
        pending.contains_key(other) ==> after_reader_event(pending, event)[other]
            == pending[other],
{
}

/// The reader stops by itself only when it is told to or breaks down.
pub proof fn reader_stops_for_a_reason(
    pending: Map<Seq<char>, u64>,
    event: ReaderEvent,
    step: ReaderStep,
)
    requires
        is_reader_step(pending, event, step),
    ensures
        step.next == NextStep::Stop <==> event is Shutdown || breakdown(event) is Some,
{
}

/// Nobody is lost: whoever waited before an event of the reader either still waits for the same
/// response or is answered.
pub proof fn nobody_is_lost(
    pending: Map<Seq<char>, u64>,
    event: ReaderEvent,
    step: ReaderStep,
    id: Seq<char>,
)
    requires
        pending.contains_key(id),
        is_reader_step(pending, event, step),
    ensures
        ({
            let after = after_reader_event(pending, event);
            ||| after.contains_key(id) && after[id] == pending[id]
            ||| exists|i: int|
                0 <= i < step.deliveries@.len() && (#[trigger] step.deliveries@[i]).waiter
                    == pending[id]
        }),
{
    if let Some((text, _)) = breakdown(event) {
        everyone_is_told(pending, step.deliveries@, text, id);
    } else if answered_id(event) == Some(id) {
        assert(step.deliveries@[0].waiter == pending[id]);
    }
}

/// Only those are answered who waited, and they wait no more.
pub proof fn only_waiters_are_answered(
    pending: Map<Seq<char>, u64>,
    event: ReaderEvent,
    step: ReaderStep,
    i: int,
)
    requires
        is_reader_step(pending, event, step),
        0 <= i < step.deliveries@.len(),
    ensures
        exists|id: Seq<char>| #[trigger]
            pending.contains_key(id) && pending[id] == step.deliveries@[i].waiter
                && !after_reader_event(pending, event).contains_key(id),
{
    if let Some((text, _)) = breakdown(event) {
        let ids = choose|ids: Seq<Seq<char>>| #[trigger]
            enumerates(ids, pending) && step.deliveries@.len() == ids.len() && forall|j: int|
                0 <= j < ids.len() ==> fails(#[trigger] step.deliveries@[j], pending[ids[j]], text);
        assert(ids.contains(ids[i]));
        assert(fails(step.deliveries@[i], pending[ids[i]], text));
        assert(pending.contains_key(ids[i]));
    } else {
        assert(answered_id(event) is Some);
        assert(pending.contains_key(answered_id(event)->0));
    }
}

/// Where each request has a waiter of its own, no waiter is answered twice by one event.
pub proof fn nobody_is_answered_twice(
    pending: Map<Seq<char>, u64>,
    event: ReaderEvent,
    step: ReaderStep,
    i: int,
    j: int,
)
    requires
        pending.is_injective(),
        is_reader_step(pending, event, step),
        0 <= i < j < step.deliveries@.len(),
    ensures
        step.deliveries@[i].waiter != step.deliveries@[j].waiter,
{
    if let Some((text, _)) = breakdown(event) {
        let ids = choose|ids: Seq<Seq<char>>| #[trigger]
            enumerates(ids, pending) && step.deliveries@.len() == ids.len() && forall|k: int|
                0 <= k < ids.len() ==> fails(#[trigger] step.deliveries@[k], pending[ids[k]], text);
        assert(ids.contains(ids[i]) && ids.contains(ids[j]));
        assert(fails(step.deliveries@[i], pending[ids[i]], text));
        assert(fails(step.deliveries@[j], pending[ids[j]], text));
    }
}

/// Notifications are nobody's response: they are handed on, and everyone keeps waiting.
pub proof fn notifications_answer_nobody(
    pending: Map<Seq<char>, u64>,
    push: WebSocketPushObject,
    step: ReaderStep,
)
    requires
        is_reader_step(pending, push_event(push), step),
    ensures
        step.deliveries@.len() == 0,
        step.push matches Some(Ok(pushed)) && pushed == push.push,
        after_reader_event(pending, push_event(push)) == pending,
{
}

/// Whether the reader reads nothing after `event`, though someone takes the notifications.
pub open spec fn ends_reading(event: ReaderEvent) -> bool {
    event is Shutdown || breakdown(event) is Some
}

/// The notification that `event` brings, if it brings one.
pub open spec fn notification_of(event: ReaderEvent) -> Option<PushObject> {
    match event {
        ReaderEvent::Parsed(Some(Ok(WebSocketMessage_::PushNotification(push)))) => Some(push.push),
        _ => None,
    }
}

/// The notifications that come in before the reader is told to stop or breaks down, in their order.
pub open spec fn notifications(events: Seq<ReaderEvent>) -> Seq<PushObject>
    decreases events.len(),
{
    if events.len() == 0 || ends_reading(events.first()) {
        seq![]
    } else {
        let rest = notifications(events.drop_first());
        match notification_of(events.first()) {
            Some(push) => seq![push] + rest,
            None => rest,
        }
    }
}

/// The notification that a step hands on, if it hands on one.
pub open spec fn handed_on_by(step: ReaderStep) -> Option<PushObject> {
    match step.push {
        Some(Ok(push)) => Some(push),
        _ => None,
    }
}

/// Whether a step hands on an error.
pub open spec fn hands_on_error(step: ReaderStep) -> bool {
    step.push matches Some(Err(_))
}

/// The notifications that `steps` hand on, in their order.
pub open spec fn handed_on(steps: Seq<ReaderStep>) -> Seq<PushObject> {
    present(Seq::new(steps.len(), |i: int| handed_on_by(steps[i])))
}

/// Whether `steps` are what the reader does at `events`, one after the other, up to the first at which
/// it stops, where `pendings[i]` wait at the event `i` and someone takes the notifications.
pub open spec fn is_reader_run(
    pendings: Seq<Map<Seq<char>, u64>>,
    events: Seq<ReaderEvent>,
    steps: Seq<ReaderStep>,
) -> bool {
    &&& steps.len() <= events.len()
    &&& pendings.len() == events.len()
    &&& forall|i: int|
        0 <= i < steps.len() ==> is_reader_step(pendings[i], events[i], #[trigger] steps[i])
    &&& forall|i: int| 0 <= i < steps.len() - 1 ==> !stops((#[trigger] steps[i]).next, false)
    &&& steps.len() < events.len() ==> steps.len() > 0 && stops(steps.last().next, false)
}

/// Over any run of the reader, whoever takes the notifications is handed those that came in before
/// the reader was told to stop or broke down: each once, in their order, and no others. What else is
/// handed on is the error of the breakdown, at the very end. This holds whoever waits for responses
/// meanwhile, so whatever is sent while the reader runs.
pub proof fn notifications_are_handed_on_in_order(
    pendings: Seq<Map<Seq<char>, u64>>,
    events: Seq<ReaderEvent>,
    steps: Seq<ReaderStep>,
)
    requires
        is_reader_run(pendings, events, steps),
    ensures
        handed_on(steps) == notifications(events),
        forall|i: int|
            0 <= i < steps.len() ==> handed_on_by(#[trigger] steps[i]) == notification_of(events[i]),
        forall|i: int|
            0 <= i < steps.len() && hands_on_error(#[trigger] steps[i]) ==> i == steps.len() - 1
                && breakdown(events[i]) is Some,
    decreases events.len(),
{
    let parts = Seq::new(steps.len(), |i: int| handed_on_by(steps[i]));
    if events.len() == 0 {
        assert(handed_on(steps) =~= notifications(events));
    } else {
        let head = seq![handed_on_by(steps[0])];
        let rest = steps.drop_first();
        let rest_parts = Seq::new(rest.len(), |i: int| handed_on_by(rest[i]));
        assert(is_reader_step(pendings[0], events[0], steps[0]));
        assert(parts =~= head + rest_parts);
        present_of_both(head, rest_parts);
        assert(head.drop_last() =~= seq![]);
        assert(present(head.drop_last()) =~= seq![]);
        if ends_reading(events.first()) {
            assert(stops(steps[0].next, false));
            assert(rest.len() == 0);
            assert(handed_on(steps) =~= notifications(events));
        } else {
            assert(!stops(steps[0].next, false));
            assert forall|i: int| 0 <= i < rest.len() implies is_reader_step(
                pendings.drop_first()[i],
                events.drop_first()[i],
                #[trigger] rest[i],
            ) by {
                assert(rest[i] == steps[i + 1]);
            }
            assert forall|i: int| 0 <= i < rest.len() - 1 implies !stops(
                (#[trigger] rest[i]).next,
                false,
            ) by {
                assert(rest[i] == steps[i + 1]);
            }
            if rest.len() > 0 {
                assert(rest.last() == steps.last());
            }
            notifications_are_handed_on_in_order(pendings.drop_first(), events.drop_first(), rest);
            assert(handed_on(steps) =~= notifications(events));
        }
    }
    assert forall|i: int| 0 <= i < steps.len() implies handed_on_by(#[trigger] steps[i])
        == notification_of(events[i]) by {
        assert(is_reader_step(pendings[i], events[i], steps[i]));
    }
    assert forall|i: int| 0 <= i < steps.len() && hands_on_error(#[trigger] steps[i]) implies i
        == steps.len() - 1 && breakdown(events[i]) is Some by {
        assert(is_reader_step(pendings[i], events[i], steps[i]));
    }
}

/// When the reader breaks down, nobody waits any more, and everyone who waited is told.
pub proof fn breakdown_ends_all_waiting(
    pending: Map<Seq<char>, u64>,
    event: ReaderEvent,
    step: ReaderStep,
    id: Seq<char>,
)
    requires
        breakdown(event) is Some,
        is_reader_step(pending, event, step),
        pending.contains_key(id),
    ensures
        after_reader_event(pending, event) == Map::<Seq<char>, u64>::empty(),
        breakdown(event) matches Some((text, _)) && exists|i: int|
            0 <= i < step.deliveries@.len() && fails(
                #[trigger] step.deliveries@[i],
                pending[id],
                text,
            ),
        step.push matches Some(Err(_)),
        step.next == NextStep::Stop,
{
    if let Some((text, _)) = breakdown(event) {
        everyone_is_told(pending, step.deliveries@, text, id);
    }
}

/// When all requests fail, the waiter of each is told why.
pub proof fn everyone_is_told(
    pending: Map<Seq<char>, u64>,
    deliveries: Seq<Delivery>,
    text: Seq<char>,
    id: Seq<char>,
)
    requires
        fails_all(pending, deliveries, text),
        pending.contains_key(id),
    ensures
        exists|i: int|
            0 <= i < deliveries.len() && fails(#[trigger] deliveries[i], pending[id], text),
{
    let ids = choose|ids: Seq<Seq<char>>| #[trigger]
        enumerates(ids, pending) && deliveries.len() == ids.len() && forall|j: int|
            0 <= j < ids.len() ==> fails(#[trigger] deliveries[j], pending[ids[j]], text);
    assert(ids.contains(id));
    let i = choose|i: int| 0 <= i < ids.len() && ids[i] == id;
    assert(fails(deliveries[i], pending[ids[i]], text));
}

/// When all requests fail, there are as many answers as there were requests.
pub proof fn one_answer_for_each(
    pending: Map<Seq<char>, u64>,
    deliveries: Seq<Delivery>,
    text: Seq<char>,
)
    requires
        fails_all(pending, deliveries, text),
    ensures
        pending.dom().finite(),
        deliveries.len() == pending.dom().len(),
{
    let ids = choose|ids: Seq<Seq<char>>| #[trigger]
        enumerates(ids, pending) && deliveries.len() == ids.len() && forall|j: int|
            0 <= j < ids.len() ==> fails(#[trigger] deliveries[j], pending[ids[j]], text);
    ids.unique_seq_to_set();
    assert(ids.to_set() =~= pending.dom()) by {
        assert forall|id: Seq<char>| ids.to_set().contains(id) <==> pending.dom().contains(id) by {
            assert(ids.contains(id) <==> pending.contains_key(id));
        }
    }
}

/// Where nobody waits, a failure is told to nobody: to end a connection again brings no answers.
pub proof fn nobody_waits_nobody_is_told(deliveries: Seq<Delivery>, text: Seq<char>)
    requires
        fails_all(Map::empty(), deliveries, text),
    ensures
        deliveries.len() == 0,
{
    one_answer_for_each(Map::empty(), deliveries, text);
}

/// Something that happens on a connection.
pub enum ConnectionEvent {
    /// A request is sent, and this waiter waits for its response.
    Send(Request, u64),
    /// Something happens to the request with this id.
    Sending(Seq<char>, SendEvent),
    /// Something happens to the reader.
    Reading(ReaderEvent),
    /// The connection ends.
    ShutDown,
}

/// What `event` leaves behind.
pub open spec fn after_event(ws: CorrelatedView, event: ConnectionEvent) -> CorrelatedView {
    match event {
        ConnectionEvent::Send(request, waiter) => after_send(ws, request, waiter),
        ConnectionEvent::Sending(id, event) => after_send_event(ws, id, event),
        ConnectionEvent::Reading(event) => CorrelatedView {
            pending: after_reader_event(ws.pending, event),
            ..ws
        },
        ConnectionEvent::ShutDown => CorrelatedView { armed: false, pending: Map::empty(), ..ws },
    }
}

/// What the events `events` leave behind, one after the other.
pub open spec fn after_events(ws: CorrelatedView, events: Seq<ConnectionEvent>) -> CorrelatedView
    decreases events.len(),
{
    if events.len() == 0 {
        ws
    } else {
        after_event(after_events(ws, events.drop_last()), events.last())
    }
}

/// Whether `event` ends the wait for the response to the request `id`: the response comes, the
/// request is given up, or the connection breaks down or ends.
pub open spec fn ends_wait(event: ConnectionEvent, id: Seq<char>) -> bool {
    match event {
        ConnectionEvent::Send(_, _) => false,
        ConnectionEvent::Sending(other, event) => other == id && gives_up_waiting(event),
        ConnectionEvent::Reading(event) => breakdown(event) is Some || answered_id(event) == Some(
            id,
        ),
        ConnectionEvent::ShutDown => true,
    }
}

/// Whatever happens on a connection, requests wait only under ids that were issued, numbers are not
/// issued again, and the connection stays that of its client.
pub proof fn connections_stay_well_formed(ws: CorrelatedView, events: Seq<ConnectionEvent>)
    requires
        ws.wf(),
    ensures
        after_events(ws, events).wf(),
        after_events(ws, events).req_id >= ws.req_id,
        after_events(ws, events).client == ws.client,
        after_events(ws, events).timeout == ws.timeout,
    decreases events.len(),
{
    if events.len() > 0 {
        connections_stay_well_formed(ws, events.drop_last());
        event_keeps_well_formed(after_events(ws, events.drop_last()), events.last());
    }
}

proof fn event_keeps_well_formed(ws: CorrelatedView, event: ConnectionEvent)
    requires
        ws.wf(),
    ensures
        after_event(ws, event).wf(),
        after_event(ws, event).req_id >= ws.req_id,
        after_event(ws, event).client == ws.client,
        after_event(ws, event).timeout == ws.timeout,
{
    let after = after_event(ws, event);
    assert forall|id: Seq<char>| #[trigger] after.pending.contains_key(id) implies was_issued(
        id,
        after.req_id,
    ) by {
        if ws.pending.contains_key(id) {
            assert(was_issued(id, ws.req_id));
            let number = choose|number: nat| number < ws.req_id && #[trigger] decimal(number) == id;
            assert(number < after.req_id && decimal(number) == id);
        } else {
            let number = ws.req_id as nat;
            assert(number < after.req_id && decimal(number) == id);
        }
    }
}

/// Whoever waits for a response waits until something ends that wait, whatever else happens.
pub proof fn waits_until_ended(
    ws: CorrelatedView,
    events: Seq<ConnectionEvent>,
    id: Seq<char>,
)
    requires
        ws.wf(),
        ws.pending.contains_key(id),
        forall|i: int| 0 <= i < events.len() ==> !ends_wait(#[trigger] events[i], id),
    ensures
        after_events(ws, events).pending.contains_key(id),
        after_events(ws, events).pending[id] == ws.pending[id],
    decreases events.len(),
{
    if events.len() > 0 {
        let earlier = events.drop_last();
        assert forall|i: int| 0 <= i < earlier.len() implies !ends_wait(
            #[trigger] earlier[i],
            id,
        ) by {
            assert(earlier[i] == events[i]);
        }
        waits_until_ended(ws, earlier, id);
        connections_stay_well_formed(ws, earlier);
        next_id_is_free(after_events(ws, earlier));
        assert(!ends_wait(events[events.len() - 1], id));
    }
}

/// A request is sent, anything happens but what ends the wait for its response, and a response with
/// its id comes in: that response is brought to whoever sent the request, and to nobody else.
pub proof fn responses_are_correlated(
    ws: CorrelatedView,
    request: Request,
    waiter: u64,
    between: Seq<ConnectionEvent>,
    response: WebSocketResponse,
    step: ReaderStep,
)
    requires
        ws.wf(),
        request.client == ws.client,
        ws.req_id < u64::MAX,
        forall|i: int|
            0 <= i < between.len() ==> !ends_wait(
                #[trigger] between[i],
                decimal(ws.req_id as nat),
            ),
        response.request_id matches Some(id) && id@ == decimal(ws.req_id as nat),
        is_reader_step(
            after_events(after_send(ws, request, waiter), between).pending,
            response_event(response),
            step,
        ),
    ensures
        step.deliveries@ == seq![Delivery { waiter, outcome: Ok(response_of(response)) }],
        step.next == NextStep::Continue,
{
    event_keeps_well_formed(ws, ConnectionEvent::Send(request, waiter));
    waits_until_ended(after_send(ws, request, waiter), between, decimal(ws.req_id as nat));
}

/// The same of a server's error, which is brought with all that the server said.
pub proof fn errors_are_correlated(
    ws: CorrelatedView,
    request: Request,
    waiter: u64,
    between: Seq<ConnectionEvent>,
    problem: WebSocketError,
    step: ReaderStep,
)
    requires
        ws.wf(),
        request.client == ws.client,
        ws.req_id < u64::MAX,
        forall|i: int|
            0 <= i < between.len() ==> !ends_wait(
                #[trigger] between[i],
                decimal(ws.req_id as nat),
            ),
        problem.request_id matches Some(id) && id@ == decimal(ws.req_id as nat),
        is_reader_step(
            after_events(after_send(ws, request, waiter), between).pending,
            error_event(problem),
            step,
        ),
    ensures
        step.deliveries@ == seq![
            Delivery { waiter, outcome: Err(Error::Problem(problem_of(problem))) },
        ],
        step.next == NextStep::Continue,
{
    event_keeps_well_formed(ws, ConnectionEvent::Send(request, waiter));
    waits_until_ended(after_send(ws, request, waiter), between, decimal(ws.req_id as nat));
}

/// No two requests of a connection get the same id, whatever happens between them.
pub proof fn sent_ids_are_never_reused(
    ws: CorrelatedView,
    request: Request,
    waiter: u64,
    between: Seq<ConnectionEvent>,
)
    requires
        ws.wf(),
        request.client == ws.client,
        ws.req_id < u64::MAX,
    ensures
        decimal(after_events(after_send(ws, request, waiter), between).req_id as nat) != decimal(
            ws.req_id as nat,
        ),
{
    event_keeps_well_formed(ws, ConnectionEvent::Send(request, waiter));
    connections_stay_well_formed(after_send(ws, request, waiter), between);
    let later = after_events(after_send(ws, request, waiter), between).req_id;
    if decimal(later as nat) == decimal(ws.req_id as nat) {
        decimal_is_injective(later as nat, ws.req_id as nat);
    }
}

/// Whether `event` is that a request is sent for which `waiter` waits.
pub open spec fn sends_for(event: ConnectionEvent, waiter: u64) -> bool {
    event matches ConnectionEvent::Send(_, sender) && sender == waiter
}

/// Whoever waits after `events` waited before them, or a request was sent for it.
pub proof fn waiters_come_from_sends(
    ws: CorrelatedView,
    events: Seq<ConnectionEvent>,
    id: Seq<char>,
)
    requires
        after_events(ws, events).pending.contains_key(id),
    ensures
        ({
            let waiter = after_events(ws, events).pending[id];
            ||| ws.pending.contains_key(id) && ws.pending[id] == waiter
            ||| exists|i: int| 0 <= i < events.len() && sends_for(#[trigger] events[i], waiter)
        }),
    decreases events.len(),
{
    if events.len() > 0 {
        let before = after_events(ws, events.drop_last());
        let waiter = after_events(ws, events).pending[id];
        if before.pending.contains_key(id) && before.pending[id] == waiter {
            waiters_come_from_sends(ws, events.drop_last(), id);
            if !(ws.pending.contains_key(id) && ws.pending[id] == waiter) {
                let i = choose|i: int|
                    0 <= i < events.drop_last().len() && sends_for(
                        #[trigger] events.drop_last()[i],
                        waiter,
                    );
                assert(sends_for(events[i], waiter));
            }
        } else {
            assert(sends_for(events[events.len() - 1], waiter));
        }
    }
}

/// Where every request is sent with a waiter of its own, no two requests ever have the same waiter,
/// whatever happens on the connection.
pub proof fn waiters_stay_distinct(ws: CorrelatedView, events: Seq<ConnectionEvent>)
    requires
        ws.pending.is_injective(),
        forall|i: int, id: Seq<char>|
            0 <= i < events.len() && #[trigger] ws.pending.contains_key(id) ==> !sends_for(
                #[trigger] events[i],
                ws.pending[id],
            ),
        forall|i: int, j: int, waiter: u64|
            0 <= i < j < events.len() && #[trigger] sends_for(events[i], waiter)
                ==> !#[trigger] sends_for(events[j], waiter),
    ensures
        after_events(ws, events).pending.is_injective(),
    decreases events.len(),
{
    if events.len() > 0 {
        let earlier = events.drop_last();
        let last = events.len() - 1;
        assert forall|i: int, id: Seq<char>|
            0 <= i < earlier.len() && #[trigger] ws.pending.contains_key(id) implies !sends_for(
            #[trigger] earlier[i],
            ws.pending[id],
        ) by {
            assert(earlier[i] == events[i]);
        }
        assert forall|i: int, j: int, waiter: u64|
            0 <= i < j < earlier.len() && #[trigger] sends_for(
                earlier[i],
                waiter,
            ) implies !#[trigger] sends_for(earlier[j], waiter) by {
            assert(sends_for(events[i], waiter));
            assert(!sends_for(events[j], waiter));
        }
        waiters_stay_distinct(ws, earlier);
        let before = after_events(ws, earlier);
        let after = after_events(ws, events);
        if let ConnectionEvent::Send(request, waiter) = events.last() {
            assert(sends_for(events[last], waiter));
            assert forall|id: Seq<char>| #[trigger] before.pending.contains_key(
                id,
            ) implies before.pending[id] != waiter by {
                waiters_come_from_sends(ws, earlier, id);
                if before.pending[id] == waiter {
                    if ws.pending.contains_key(id) && ws.pending[id] == waiter {
                        assert(!sends_for(events[last], ws.pending[id]));
                    } else {
                        let i = choose|i: int|
                            0 <= i < earlier.len() && sends_for(#[trigger] earlier[i], waiter);
                        assert(sends_for(events[i], waiter));
                    }
                }
            }
        }
        assert forall|x: Seq<char>, y: Seq<char>|
            x != y && after.pending.dom().contains(x) && after.pending.dom().contains(
                y,
            ) implies #[trigger] after.pending[x] != #[trigger] after.pending[y] by {
            let fresh = decimal(before.req_id as nat);
            if x != fresh {
                assert(before.pending.contains_key(x));
            }
            if y != fresh {
                assert(before.pending.contains_key(y));
            }
        }
    }
}

/// Where each request has a waiter of its own, whoever is answered never waits again, whatever happens
/// later, unless another request is sent for it: so nobody is answered twice for one request.
pub proof fn answered_waiters_wait_no_more(
    ws: CorrelatedView,
    event: ReaderEvent,
    step: ReaderStep,
    i: int,
    later: Seq<ConnectionEvent>,
    id: Seq<char>,
)
    requires
        ws.pending.is_injective(),
        is_reader_step(ws.pending, event, step),
        0 <= i < step.deliveries@.len(),
        forall|j: int|
            0 <= j < later.len() ==> !sends_for(#[trigger] later[j], step.deliveries@[i].waiter),
        after_events(
            after_event(ws, ConnectionEvent::Reading(event)),
            later,
        ).pending.contains_key(id),
    ensures
        after_events(after_event(ws, ConnectionEvent::Reading(event)), later).pending[id]
            != step.deliveries@[i].waiter,
{
    let waiter = step.deliveries@[i].waiter;
    let after = after_event(ws, ConnectionEvent::Reading(event));
    only_waiters_are_answered(ws.pending, event, step, i);
    let answered = choose|answered: Seq<char>| #[trigger]
        ws.pending.contains_key(answered) && ws.pending[answered] == waiter
            && !after.pending.contains_key(answered);
    if after_events(after, later).pending[id] == waiter {
        waiters_come_from_sends(after, later, id);
        assert(after.pending.contains_key(id) && after.pending[id] == waiter);
        assert(ws.pending.contains_key(id) && ws.pending[id] == waiter);
    }
}

} // verus!
