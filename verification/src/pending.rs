//! The requests that wait for a response, each under its request id.
//!
//! Whoever waits is known by a number, the waiter. What a waiter is to be answered is handed out as a
//! [`Delivery`].
use ahash::AHashMap;
use vstd::prelude::*;

use crate::error::{Error, ErrorView, ProblemDetails};
use crate::model::{Response, TaggedMethodResponse};
use crate::wire::{
    into_response, problem_of, response_of, WebSocketError, WebSocketResponse,
};

verus! {

/// The waiter of each request id in `map`.
pub uninterp spec fn waiter_entries(map: AHashMap<String, u64>) -> Map<Seq<char>, u64>;

/// `ahash::AHashMap::new`: the new map is empty.
#[verifier::external_body]
fn new_waiters() -> (created: AHashMap<String, u64>)
    ensures
        (waiter_entries(created) == Map::<Seq<char>, u64>::empty()),
{
    AHashMap::new()
}

/// `ahash::AHashMap::insert`: puts `waiter` under `id`, whatever was there before, touches no other
/// key, and returns what was there.
#[verifier::external_body]
fn insert_waiter(map: &mut AHashMap<String, u64>, id: String, waiter: u64) -> (replaced: Option<
    u64,
>)
    ensures
        waiter_entries(*final(map)) == waiter_entries(*old(map)).insert(id@, waiter),
        replaced == waiter_entries(*old(map)).get(id@),
{
    map.insert(id, waiter)
}

/// `ahash::AHashMap::remove`: takes `id` out, touches no other key, and returns what was under `id`.
#[verifier::external_body]
fn remove_waiter(map: &mut AHashMap<String, u64>, id: &String) -> (removed: Option<u64>)
    ensures
        waiter_entries(*final(map)) == waiter_entries(*old(map)).remove(id@),
        removed == waiter_entries(*old(map)).get(id@),
{
    map.remove(id)
}

/// `contains_key` of the `HashMap` that an `ahash::AHashMap` dereferences to: whether there is
/// anything under `id`.
#[verifier::external_body]
fn has_waiter(map: &AHashMap<String, u64>, id: &String) -> (present: bool)
    ensures
        present == waiter_entries(*map).contains_key(id@),
{
    map.contains_key(id)
}

/// Whether `list` holds every entry of `entries` once and nothing else, in any order.
pub open spec fn lists(list: Seq<(String, u64)>, entries: Map<Seq<char>, u64>) -> bool {
    &&& forall|i: int|
        0 <= i < list.len() ==> entries.contains_key((#[trigger] list[i]).0@)
            && entries[list[i].0@] == list[i].1
    &&& forall|i: int, j: int|
        0 <= i < j < list.len() ==> (#[trigger] list[i]).0@ != (#[trigger] list[j]).0@
    &&& forall|id: Seq<char>| #[trigger]
        entries.contains_key(id) ==> exists|i: int|
            0 <= i < list.len() && (#[trigger] list[i]).0@ == id
}

/// `into_iter` of an `ahash::AHashMap`, collected: every entry of the map once, in an order that
/// depends on the map's random seed and is left open.
#[verifier::external_body]
fn into_entries(map: AHashMap<String, u64>) -> (list: Vec<(String, u64)>)
    ensures
        lists(list@, waiter_entries(map)),
{
    map.into_iter().collect()
}

/// What a waiter is to be answered.
#[derive(Debug)]
pub struct Delivery {
    pub waiter: u64,
    pub outcome: Result<Response<TaggedMethodResponse>, Error>,
}

/// The requests that wait for a response.
#[derive(Debug)]
pub struct PendingResponses {
    waiters: AHashMap<String, u64>,
}

impl View for PendingResponses {
    type V = Map<Seq<char>, u64>;

    /// The waiter of each request id.
    closed spec fn view(&self) -> Map<Seq<char>, u64> {
        waiter_entries(self.waiters)
    }
}

impl PendingResponses {
    pub fn new() -> (pending: PendingResponses)
        ensures
            pending@ == Map::<Seq<char>, u64>::empty(),
    {
        PendingResponses { waiters: new_waiters() }
    }

    /// Lets `waiter` wait for the response to the request `id`, in the place of the one that did.
    pub fn insert(&mut self, id: String, waiter: u64) -> (replaced: Option<u64>)
        ensures
            final(self)@ == old(self)@.insert(id@, waiter),
            replaced == old(self)@.get(id@),
    {
        insert_waiter(&mut self.waiters, id, waiter)
    }

    /// Lets nobody wait for the response to the request `id`, and returns who did.
    pub fn remove(&mut self, id: &String) -> (removed: Option<u64>)
        ensures
            final(self)@ == old(self)@.remove(id@),
            removed == old(self)@.get(id@),
    {
        remove_waiter(&mut self.waiters, id)
    }

    /// Whether anybody waits for the response to the request `id`.
    pub fn contains_key(&self, id: &String) -> (present: bool)
        ensures
            present == self@.contains_key(id@),
    {
        has_waiter(&self.waiters, id)
    }

    /// Lets nobody wait any more, and returns who did, with the ids, in any order.
    fn take(&mut self) -> (list: Vec<(String, u64)>)
        ensures
            final(self)@ == Map::<Seq<char>, u64>::empty(),
            lists(list@, old(self)@),
    {
        let mut taken = new_waiters();
        std::mem::swap(&mut taken, &mut self.waiters);
        into_entries(taken)
    }
}

/// Who is still waiting once the request `id` has been answered.
pub open spec fn answered(pending: Map<Seq<char>, u64>, id: Option<String>) -> Map<Seq<char>, u64> {
    match id {
        Some(id) => pending.remove(id@),
        None => pending,
    }
}

/// Whether `delivered` is what answering the request `id` with `outcome` comes to: `outcome` for the
/// one who waits for it, and nothing where nobody does.
pub open spec fn answers(
    pending: Map<Seq<char>, u64>,
    id: Seq<char>,
    outcome: Result<Response<TaggedMethodResponse>, Error>,
    delivered: Option<Delivery>,
) -> bool {
    delivered == (if pending.contains_key(id) {
        Some(Delivery { waiter: pending[id], outcome })
    } else {
        None
    })
}

/// Takes a response to whoever waits for it. A response without a request id is an error, and
/// answers nobody.
pub fn resolve_ws_response(
    pending: &mut PendingResponses,
    response: WebSocketResponse,
) -> (delivered: Result<Option<Delivery>, Error>)
    ensures
        final(pending)@ == answered(old(pending)@, response.request_id),
        match response.request_id {
            Some(id) => delivered matches Ok(delivery) && answers(
                old(pending)@,
                id@,
                Ok(response_of(response)),
                delivery,
            ),
            None => delivered matches Err(error) && error@ == ErrorView::Internal(
                "WebSocket response missing requestId."@,
            ),
        },
{
    let request_id: String = match &response.request_id {
        Some(id) => id.clone(),
        None => {
            return Err(Error::internal("WebSocket response missing requestId."));
        },
    };
    match pending.remove(&request_id) {
        Some(waiter) => Ok(Some(Delivery { waiter, outcome: Ok(into_response(response)) })),
        None => Ok(None),
    }
}

/// Takes a server's error to whoever waits for the response to the request that it is about. An
/// error without a request id is itself an error, and answers nobody.
pub fn resolve_ws_error(pending: &mut PendingResponses, error: WebSocketError) -> (delivered: Result<
    Option<Delivery>,
    Error,
>)
    ensures
        final(pending)@ == answered(old(pending)@, error.request_id),
        match error.request_id {
            Some(id) => delivered matches Ok(delivery) && answers(
                old(pending)@,
                id@,
                Err(Error::Problem(problem_of(error))),
                delivery,
            ),
            None => delivered matches Err(error) && error@ == ErrorView::Internal(
                "WebSocket error missing requestId."@,
            ),
        },
{
    let request_id: String = match &error.request_id {
        Some(id) => id.clone(),
        None => {
            return Err(Error::internal("WebSocket error missing requestId."));
        },
    };
    match pending.remove(&request_id) {
        Some(waiter) => {
            let problem = ProblemDetails::from(error);
            Ok(Some(Delivery { waiter, outcome: Err(Error::Problem(problem)) }))
        },
        None => Ok(None),
    }
}

/// Whether `ids` holds each request id of `pending` once and nothing else.
pub open spec fn enumerates(ids: Seq<Seq<char>>, pending: Map<Seq<char>, u64>) -> bool {
    &&& ids.no_duplicates()
    &&& forall|id: Seq<char>| #[trigger] ids.contains(id) <==> pending.contains_key(id)
}

/// Whether `delivery` tells `waiter` that its request failed for the reason `text`.
pub open spec fn fails(delivery: Delivery, waiter: u64, text: Seq<char>) -> bool {
    &&& delivery.waiter == waiter
    &&& delivery.outcome matches Err(error) && error@ == ErrorView::Internal(text)
}

/// Whether `deliveries` tells everyone in `pending`, once for each request, that the request failed
/// for the reason `text`, and tells nobody else anything.
pub open spec fn fails_all(
    pending: Map<Seq<char>, u64>,
    deliveries: Seq<Delivery>,
    text: Seq<char>,
) -> bool {
    exists|ids: Seq<Seq<char>>| #[trigger]
        enumerates(ids, pending) && deliveries.len() == ids.len() && forall|i: int|
            0 <= i < ids.len() ==> fails(#[trigger] deliveries[i], pending[ids[i]], text)
}

/// Lets nobody wait any more: everyone who did is told that the request failed for the reason
/// `message`.
pub fn fail_pending_responses(pending: &mut PendingResponses, message: String) -> (deliveries: Vec<
    Delivery,
>)
    ensures
        final(pending)@ == Map::<Seq<char>, u64>::empty(),
        fails_all(old(pending)@, deliveries@, message@),
{
    let list: Vec<(String, u64)> = pending.take();
    let mut deliveries: Vec<Delivery> = Vec::new();
    let mut i: usize = 0;
    while i < list.len()
        invariant
            i <= list.len(),
            deliveries.len() == i,
            forall|j: int|
                0 <= j < i ==> fails(#[trigger] deliveries@[j], list@[j].1, message@),
        decreases list.len() - i,
    {
        deliveries.push(
            Delivery { waiter: list[i].1, outcome: Err(Error::Internal(message.clone())) },
        );
        i += 1;
    }
    proof {
        let entries = old(pending)@;
        let ids = Seq::new(list@.len(), |j: int| list@[j].0@);
        assert(enumerates(ids, entries)) by {
            assert forall|id: Seq<char>| #[trigger] ids.contains(id) <==> entries.contains_key(id) by {
                if ids.contains(id) {
                    let j = choose|j: int| 0 <= j < ids.len() && ids[j] == id;
                    assert(entries.contains_key(list@[j].0@));
                }
                if entries.contains_key(id) {
                    let j = choose|j: int| 0 <= j < list@.len() && (#[trigger] list@[j]).0@ == id;
                    assert(ids[j] == id);
                }
            }
            assert forall|a: int, b: int| 0 <= a < ids.len() && 0 <= b < ids.len() && a != b implies ids[a]
                != ids[b] by {
                assert(list@[a].0@ == ids[a] && list@[b].0@ == ids[b]);
            }
        }
        assert forall|j: int| 0 <= j < ids.len() implies fails(
            #[trigger] deliveries@[j],
            entries[ids[j]],
            message@,
        ) by {
            assert(entries[list@[j].0@] == list@[j].1);
        }
    }
    deliveries
}

} // verus!
