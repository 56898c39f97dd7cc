//! The ids that requests are given, one after the other, on each connection.
use vstd::prelude::*;

use crate::error::{Error, ErrorView};
use crate::pending::PendingResponses;
use crate::text::{decimal, decimal_string, join};

verus! {

/// What asking for a request id comes to, where the next id is the number `number`: the id in decimal
/// notation; an error where the numbers are used up, or where someone in `pending` already waits
/// under that id.
pub open spec fn issued(number: u64, pending: Option<Map<Seq<char>, u64>>) -> Result<
    Seq<char>,
    ErrorView,
> {
    let id = decimal(number as nat);
    if number == u64::MAX {
        Err(ErrorView::Internal("WebSocket request id overflow."@))
    } else if pending matches Some(waiting) && waiting.contains_key(id) {
        Err(
            ErrorView::Internal(
                "WebSocket request id collision for requestId "@ + id + "."@,
            ),
        )
    } else {
        Ok(id)
    }
}

/// The number after `number`, which stays at the last one where the numbers are used up.
pub open spec fn next_number(number: u64) -> u64 {
    if number == u64::MAX {
        number
    } else {
        (number + 1) as u64
    }
}

/// Whether `result` is the id or the error that `expected` says.
pub open spec fn is_issued(
    result: Result<String, Error>,
    expected: Result<Seq<char>, ErrorView>,
) -> bool {
    match result {
        Ok(id) => expected == Ok::<Seq<char>, ErrorView>(id@),
        Err(error) => expected == Err::<Seq<char>, ErrorView>(error@),
    }
}

/// Who waits in `pending`, where there is anything to wait in.
pub open spec fn waiting(pending: Option<&PendingResponses>) -> Option<Map<Seq<char>, u64>> {
    match pending {
        Some(pending) => Some(pending@),
        None => None,
    }
}

/// Issues the next request id. The number is used up even where someone already waits under the id.
pub fn next_request_id(req_id: &mut u64, pending: Option<&PendingResponses>) -> (result: Result<
    String,
    Error,
>)
    ensures
        *final(req_id) == next_number(*old(req_id)),
        is_issued(result, issued(*old(req_id), waiting(pending))),
        *old(req_id) < u64::MAX ==> *final(req_id) == *old(req_id) + 1,
        *old(req_id) == u64::MAX ==> *final(req_id) == u64::MAX && result is Err,
        result matches Ok(id) ==> id@ == decimal(*old(req_id) as nat),
        *old(req_id) < u64::MAX ==> (result is Err <==> (pending is Some
            && pending->0@.contains_key(decimal(*old(req_id) as nat)))),
{
    let number: u64 = *req_id;
    match number.checked_add(1) {
        Some(next) => {
            *req_id = next;
        },
        None => {
            return Err(Error::internal("WebSocket request id overflow."));
        },
    }
    let request_id: String = decimal_string(number);
    let taken: bool = match pending {
        Some(pending) => pending.contains_key(&request_id),
        None => false,
    };
    if taken {
        return Err(
            Error::Internal(
                join(
                    "WebSocket request id collision for requestId ",
                    request_id.as_str(),
                    ".",
                ),
            ),
        );
    }
    Ok(request_id)
}

/// The sending side of a connection whose responses its user sorts out.
#[derive(Debug)]
pub struct WsStream {
    req_id: u64,
}

impl View for WsStream {
    type V = u64;

    /// The number of the next request.
    closed spec fn view(&self) -> u64 {
        self.req_id
    }
}

impl WsStream {
    pub fn new() -> (stream: WsStream)
        ensures
            stream@ == 0,
    {
        WsStream { req_id: 0 }
    }

    /// Issues the next request id.
    pub fn next_request_id(&mut self) -> (result: Result<String, Error>)
        ensures
            final(self)@ == next_number(old(self)@),
            is_issued(result, issued(old(self)@, None)),
            old(self)@ < u64::MAX ==> final(self)@ == old(self)@ + 1,
            match result {
                Ok(id) => old(self)@ < u64::MAX && id@ == decimal(old(self)@ as nat),
                Err(_) => old(self)@ == u64::MAX && final(self)@ == u64::MAX,
            },
    {
        next_request_id(&mut self.req_id, None)
    }
}

/// The sending side of a connection that takes each response to whoever waits for it.
#[derive(Debug)]
pub struct CorrelatedWsTx {
    req_id: u64,
}

impl View for CorrelatedWsTx {
    type V = u64;

    /// The number of the next request.
    closed spec fn view(&self) -> u64 {
        self.req_id
    }
}

impl CorrelatedWsTx {
    pub fn new() -> (tx: CorrelatedWsTx)
        ensures
            tx@ == 0,
    {
        CorrelatedWsTx { req_id: 0 }
    }

    /// Issues the next request id, which must not be one that someone in `pending` waits under.
    pub fn next_request_id(&mut self, pending: &PendingResponses) -> (result: Result<String, Error>)
        ensures
            final(self)@ == next_number(old(self)@),
            is_issued(result, issued(old(self)@, Some(pending@))),
            old(self)@ < u64::MAX ==> final(self)@ == old(self)@ + 1,
            match result {
                Ok(id) => old(self)@ < u64::MAX && id@ == decimal(old(self)@ as nat)
                    && !pending@.contains_key(id@),
                Err(_) => old(self)@ == u64::MAX || pending@.contains_key(
                    decimal(old(self)@ as nat),
                ),
            },
    {
        next_request_id(&mut self.req_id, Some(pending))
    }
}

} // verus!
