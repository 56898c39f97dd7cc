//! The messages of a connection whose responses its user sorts out.
use vstd::prelude::*;

use crate::error::{Error, ProblemDetails};
use crate::wire::{
    into_response, parse_ws_message, problem_of, reading_of, response_of, Message, WebSocketError,
    WebSocketMessage, WebSocketMessage_, WebSocketPushObject, WebSocketResponse,
};

verus! {

/// What the user of a connection is handed for what was read in a message, if anything.
pub open spec fn item_of(parsed: Option<Result<WebSocketMessage_, Error>>) -> Option<
    Result<WebSocketMessage, Error>,
> {
    match parsed {
        None => None,
        Some(Ok(WebSocketMessage_::Response(response))) => Some(
            Ok(WebSocketMessage::Response(response_of(response))),
        ),
        Some(Ok(WebSocketMessage_::PushNotification(push))) => Some(
            Ok(WebSocketMessage::PushNotification(push.push)),
        ),
        Some(Ok(WebSocketMessage_::Error(problem))) => Some(
            Err(Error::Problem(problem_of(problem))),
        ),
        Some(Err(error)) => Some(Err(error)),
    }
}

/// What the user of a connection is handed for what was read in a message, if anything.
pub fn stream_item(parsed: Option<Result<WebSocketMessage_, Error>>) -> (item: Option<
    Result<WebSocketMessage, Error>,
>)
    ensures
        item == item_of(parsed),
        match parsed {
            None => item is None,
            Some(Ok(WebSocketMessage_::Response(object))) => {
                item matches Some(Ok(WebSocketMessage::Response(response))) && {
                    &&& response.method_responses == object.method_responses
                    &&& response.created_ids == object.created_ids
                    &&& response.session_state == object.session_state
                    &&& response.request_id == object.request_id
                }
            },
            Some(Ok(WebSocketMessage_::PushNotification(object))) => {
                item matches Some(Ok(WebSocketMessage::PushNotification(push))) && push
                    == object.push
            },
            Some(Ok(WebSocketMessage_::Error(object))) => {
                item matches Some(Err(Error::Problem(problem))) && {
                    &&& problem.p_type == object.p_type
                    &&& problem.status == object.status
                    &&& problem.title == object.title
                    &&& problem.detail == object.detail
                    &&& problem.limit == object.limit
                    &&& problem.request_id == object.request_id
                }
            },
            Some(Err(error)) => item matches Some(Err(handed)) && handed == error,
        },
{
    match parsed {
        None => None,
        Some(Ok(WebSocketMessage_::Response(response))) => Some(
            Ok(WebSocketMessage::Response(into_response(response))),
        ),
        Some(Ok(WebSocketMessage_::PushNotification(push))) => Some(
            Ok(WebSocketMessage::PushNotification(push.push)),
        ),
        Some(Ok(WebSocketMessage_::Error(problem))) => {
            let details = ProblemDetails::from(problem);
            Some(Err(Error::Problem(details)))
        },
        Some(Err(error)) => Some(Err(error)),
    }
}

/// What was read in what came out of the stream of messages, where `decoded` is what the JSON reader
/// made of it if it was a text message.
pub open spec fn read_as(
    received: Result<Message, String>,
    decoded: Result<WebSocketMessage_, String>,
) -> Option<Result<WebSocketMessage_, Error>> {
    match received {
        Ok(Message::Text(_)) => Some(reading_of(decoded)),
        Ok(_) => None,
        Err(reason) => Some(Err(Error::WebSocket(reason))),
    }
}

/// Whether `decoded` is what the JSON reader `decode` makes of what came out of the stream of messages;
/// it makes something of text messages only.
pub open spec fn is_decoded<D: Fn(String) -> Result<WebSocketMessage_, String>>(
    received: Result<Message, String>,
    decode: D,
    decoded: Result<WebSocketMessage_, String>,
) -> bool {
    received matches Ok(Message::Text(text)) ==> call_ensures(decode, (text,), decoded)
}

/// What the user of a connection is handed for what came out of the stream of messages: a message,
/// which is read with the JSON reader `decode`, or the reason why there is none.
pub fn on_stream<D: Fn(String) -> Result<WebSocketMessage_, String>>(
    received: Result<Message, String>,
    decode: D,
) -> (item: Option<Result<WebSocketMessage, Error>>)
    requires
        received matches Ok(Message::Text(text)) ==> call_requires(decode, (text,)),
    ensures
        exists|decoded: Result<WebSocketMessage_, String>| #[trigger]
            is_decoded(received, decode, decoded) && item == item_of(read_as(received, decoded)),
        match received {
            Ok(Message::Text(text)) => item is Some && match item->0 {
                Ok(WebSocketMessage::Response(response)) => exists|object: WebSocketResponse|
                    #[trigger] call_ensures(
                        decode,
                        (text,),
                        Ok(WebSocketMessage_::Response(object)),
                    ) && response.method_responses == object.method_responses
                        && response.created_ids == object.created_ids && response.session_state
                        == object.session_state && response.request_id == object.request_id,
                Ok(WebSocketMessage::PushNotification(push)) => exists|object: WebSocketPushObject|
                    #[trigger] call_ensures(
                        decode,
                        (text,),
                        Ok(WebSocketMessage_::PushNotification(object)),
                    ) && push == object.push,
                Err(Error::Problem(problem)) => exists|object: WebSocketError| #[trigger]
                    call_ensures(decode, (text,), Ok(WebSocketMessage_::Error(object)))
                        && problem.p_type == object.p_type && problem.status == object.status
                        && problem.title == object.title && problem.detail == object.detail
                        && problem.limit == object.limit && problem.request_id
                        == object.request_id,
                Err(error) => error matches Error::Parse(reason) && call_ensures(
                    decode,
                    (text,),
                    Err(reason),
                ),
            },
            Ok(_) => item is None,
            Err(reason) => item matches Some(Err(Error::WebSocket(told))) && told == reason,
        },
{
    let ghost came = received;
    match received {
        Ok(message) => {
            let ghost incoming = message;
            let parsed = parse_ws_message(message, decode);
            proof {
                let decoded = if let Message::Text(text) = incoming {
                    choose|decoded: Result<WebSocketMessage_, String>| #[trigger]
                        call_ensures(decode, (text,), decoded) && parsed == Some(
                            reading_of(decoded),
                        )
                } else {
                    arbitrary()
                };
                assert(is_decoded(came, decode, decoded) && parsed == read_as(came, decoded));
            }
            stream_item(parsed)
        },
        Err(reason) => {
            assert(is_decoded(came, decode, arbitrary()));
            Some(Err(Error::WebSocket(reason)))
        },
    }
}

/// The values in `items`, in their order.
pub open spec fn present<T>(items: Seq<Option<T>>) -> Seq<T>
    decreases items.len(),
{
    if items.len() == 0 {
        seq![]
    } else {
        match items.last() {
            Some(item) => present(items.drop_last()).push(item),
            None => present(items.drop_last()),
        }
    }
}

/// What was read in each of the things that came out of the stream of messages.
pub open spec fn readings(
    received: Seq<Result<Message, String>>,
    decoded: Seq<Result<WebSocketMessage_, String>>,
) -> Seq<Option<Result<WebSocketMessage_, Error>>> {
    Seq::new(received.len(), |i: int| read_as(received[i], decoded[i]))
}

/// What the user of a connection is handed, if anything, for each of the things that were read.
pub open spec fn item_for_each(parsed: Seq<Option<Result<WebSocketMessage_, Error>>>) -> Seq<
    Option<Result<WebSocketMessage, Error>>,
> {
    Seq::new(parsed.len(), |i: int| item_of(parsed[i]))
}

/// What the user of a connection is handed, over all that was read in its messages.
pub open spec fn items_of(parsed: Seq<Option<Result<WebSocketMessage_, Error>>>) -> Seq<
    Result<WebSocketMessage, Error>,
> {
    present(item_for_each(parsed))
}

/// Whether `given` are the values in `items`, each once and in order, where `origins` says at which
/// place of `items` each was.
pub open spec fn come_from<T>(given: Seq<T>, items: Seq<Option<T>>, origins: Seq<int>) -> bool {
    &&& origins.len() == given.len()
    &&& forall|k: int|
        0 <= k < origins.len() ==> 0 <= #[trigger] origins[k] < items.len() && items[origins[k]]
            == Some(given[k])
    &&& forall|j: int, k: int|
        0 <= j < k < origins.len() ==> #[trigger] origins[j] < #[trigger] origins[k]
    &&& forall|i: int|
        0 <= i < items.len() && (#[trigger] items[i]) is Some ==> origins.contains(i)
}

/// The values in `items` are taken each once, in order, and none is left out.
pub proof fn present_in_order<T>(items: Seq<Option<T>>)
    ensures
        exists|origins: Seq<int>| come_from(present(items), items, origins),
    decreases items.len(),
{
    if items.len() == 0 {
        assert(come_from(present(items), items, seq![]));
    } else {
        let earlier = items.drop_last();
        present_in_order(earlier);
        let before = choose|before: Seq<int>| come_from(present(earlier), earlier, before);
        let last = items.len() - 1;
        let origins = match items.last() {
            Some(_) => before.push(last),
            None => before,
        };
        assert forall|i: int| 0 <= i < items.len() && (#[trigger] items[i]) is Some implies origins.contains(i) by {
            if i == last {
                assert(origins[origins.len() - 1] == last);
            } else {
                assert(earlier[i] is Some);
                let k = choose|k: int| 0 <= k < before.len() && before[k] == i;
                assert(origins[k] == i);
            }
        }
        assert forall|k: int| 0 <= k < origins.len() implies 0 <= #[trigger] origins[k] < items.len()
            && items[origins[k]] == Some(present(items)[k]) by {
            if k < before.len() {
                assert(origins[k] == before[k]);
                assert(earlier[before[k]] == items[before[k]]);
            }
        }
        assert forall|j: int, k: int| 0 <= j < k < origins.len() implies #[trigger] origins[j]
            < #[trigger] origins[k] by {
            assert(origins[j] == before[j]);
            if k < before.len() {
                assert(origins[k] == before[k]);
            }
        }
        assert(come_from(present(items), items, origins));
    }
}

/// The values in two lists, one after the other, are those in the first and then those in the second.
pub proof fn present_of_both<T>(first: Seq<Option<T>>, second: Seq<Option<T>>)
    ensures
        present(first + second) == present(first) + present(second),
    decreases second.len(),
{
    let both = first + second;
    if second.len() == 0 {
        assert(both =~= first);
        assert(present(first) + present(second) =~= present(first));
    } else {
        present_of_both(first, second.drop_last());
        assert(both.drop_last() =~= first + second.drop_last());
        assert(both.last() == second.last());
        assert(present(both) =~= present(first) + present(second));
    }
}

/// Over any sequence of messages and failures, the user is handed one item for each text message and
/// for each failure, in their order, and none for any other message. The item is the response, the
/// notification, the problem, or the error that `item_of` says.
pub proof fn items_correspond_to_messages(
    received: Seq<Result<Message, String>>,
    decoded: Seq<Result<WebSocketMessage_, String>>,
)
    requires
        received.len() == decoded.len(),
    ensures
        exists|origins: Seq<int>|
            come_from(
                items_of(readings(received, decoded)),
                item_for_each(readings(received, decoded)),
                origins,
            ),
        forall|i: int|
            0 <= i < received.len() ==> (#[trigger] item_for_each(
                readings(received, decoded),
            )[i] is Some <==> received[i] is Err || received[i]->Ok_0 is Text),
{
    let items = item_for_each(readings(received, decoded));
    present_in_order(items);
    let origins = choose|origins: Seq<int>| come_from(present(items), items, origins);
    assert(come_from(items_of(readings(received, decoded)), items, origins));
}

/// No error ends the items: whatever was read before, all that is read later is handed out after it,
/// as if it had come alone.
pub proof fn no_error_ends_the_items(
    parsed: Seq<Option<Result<WebSocketMessage_, Error>>>,
    later: Seq<Option<Result<WebSocketMessage_, Error>>>,
)
    ensures
        items_of(parsed + later) == items_of(parsed) + items_of(later),
{
    present_of_both(item_for_each(parsed), item_for_each(later));
    assert(item_for_each(parsed + later) =~= item_for_each(parsed) + item_for_each(later));
}

} // verus!
