//! What is sent and received over a WebSocket: frames, and the JMAP objects in text frames.
use ahash::AHashMap;
use vstd::prelude::*;

use crate::error::{Error, ProblemDetails, ProblemType};
use crate::model::{Arguments, DataType, Method, PushObject, Response, TaggedMethodResponse, URI};

verus! {

/// A WebSocket message.
#[derive(Debug, PartialEq, Eq)]
pub enum Message {
    Text(String),
    Binary(Vec<u8>),
    Ping(Vec<u8>),
    Pong(Vec<u8>),
    Close,
    Frame,
}

#[derive(Clone, Copy, Debug, PartialEq, Eq)]
pub enum WebSocketRequestType {
    Request,
}

#[derive(Clone, Copy, Debug, PartialEq, Eq)]
pub enum WebSocketResponseType {
    Response,
}

#[derive(Clone, Copy, Debug, PartialEq, Eq)]
pub enum WebSocketPushEnableType {
    WebSocketPushEnable,
}

#[derive(Clone, Copy, Debug, PartialEq, Eq)]
pub enum WebSocketPushDisableType {
    WebSocketPushDisable,
}

#[derive(Clone, Copy, Debug, PartialEq, Eq)]
pub enum WebSocketErrorType {
    RequestError,
}

/// A request, with the id that its response is to bear.
#[derive(Debug)]
pub struct WebSocketRequest {
    pub _type: WebSocketRequestType,
    pub id: Option<String>,
    pub using: Vec<URI>,
    pub method_calls: Vec<(Method, Arguments, String)>,
    pub created_ids: Option<AHashMap<String, String>>,
}

/// The response to a request.
#[derive(Debug)]
pub struct WebSocketResponse {
    pub _type: WebSocketResponseType,
    pub request_id: Option<String>,
    pub method_responses: Vec<TaggedMethodResponse>,
    pub created_ids: Option<AHashMap<String, String>>,
    pub session_state: String,
}

/// Asks the server to push notifications.
#[derive(Debug)]
pub struct WebSocketPushEnable {
    pub _type: WebSocketPushEnableType,
    /// The kinds of objects to be notified of; all of them where there is no list.
    pub data_types: Option<Vec<DataType>>,
    /// The last push state that the client saw.
    pub push_state: Option<String>,
}

/// Asks the server to push no more notifications.
#[derive(Debug)]
pub struct WebSocketPushDisable {
    pub _type: WebSocketPushDisableType,
}

/// A notification with the push state that it leads to.
#[derive(Debug)]
pub struct WebSocketPushObject {
    pub push: PushObject,
    pub push_state: Option<String>,
}

/// A problem that the server reports of a request.
#[derive(Debug)]
pub struct WebSocketError {
    pub type_: WebSocketErrorType,
    pub request_id: Option<String>,
    pub p_type: ProblemType,
    pub status: Option<u32>,
    pub title: Option<String>,
    pub detail: Option<String>,
    pub limit: Option<String>,
}

/// What the JSON of a text message says.
#[derive(Debug)]
pub enum WebSocketMessage_ {
    Response(WebSocketResponse),
    PushNotification(WebSocketPushObject),
    Error(WebSocketError),
}

/// What a connection hands to its user.
#[derive(Debug)]
pub enum WebSocketMessage {
    Response(Response<TaggedMethodResponse>),
    PushNotification(PushObject),
}

impl From<WebSocketError> for ProblemDetails {
    fn from(problem: WebSocketError) -> (details: ProblemDetails)
        ensures
            details.p_type == problem.p_type,
            details.status == problem.status,
            details.title == problem.title,
            details.detail == problem.detail,
            details.limit == problem.limit,
            details.request_id == problem.request_id,
    {
        ProblemDetails::new(
            problem.p_type,
            problem.status,
            problem.title,
            problem.detail,
            problem.limit,
            problem.request_id,
        )
    }
}

impl vstd::std_specs::convert::FromSpecImpl<WebSocketError> for ProblemDetails {
    open spec fn obeys_from_spec() -> bool {
        true
    }

    open spec fn from_spec(problem: WebSocketError) -> ProblemDetails {
        problem_of(problem)
    }
}

/// The problem details that a server's error holds.
pub open spec fn problem_of(problem: WebSocketError) -> ProblemDetails {
    ProblemDetails {
        p_type: problem.p_type,
        status: problem.status,
        title: problem.title,
        detail: problem.detail,
        limit: problem.limit,
        request_id: problem.request_id,
    }
}

/// The response that a response object holds.
pub open spec fn response_of(response: WebSocketResponse) -> Response<TaggedMethodResponse> {
    Response {
        method_responses: response.method_responses,
        created_ids: response.created_ids,
        session_state: response.session_state,
        request_id: response.request_id,
    }
}

/// The response that a response object holds.
pub fn into_response(response: WebSocketResponse) -> (result: Response<TaggedMethodResponse>)
    ensures
        result == response_of(response),
        result.method_responses == response.method_responses,
        result.created_ids == response.created_ids,
        result.session_state == response.session_state,
        result.request_id == response.request_id,
{
    Response::new(
        response.method_responses,
        response.created_ids,
        response.session_state,
        response.request_id,
    )
}

/// What reading a JSON text came to: the message, or the reason why there is none as an [`Error`].
pub open spec fn reading_of(decoded: Result<WebSocketMessage_, String>) -> Result<
    WebSocketMessage_,
    Error,
> {
    match decoded {
        Ok(message) => Ok(message),
        Err(reason) => Err(Error::Parse(reason)),
    }
}

/// Takes what a JSON reader made of a text message.
pub fn decoded_message(decoded: Result<WebSocketMessage_, String>) -> (reading: Result<
    WebSocketMessage_,
    Error,
>)
    ensures
        reading == reading_of(decoded),
        decoded matches Ok(message) ==> reading == Ok::<WebSocketMessage_, Error>(message),
        decoded matches Err(reason) ==> reading == Err::<WebSocketMessage_, Error>(
            Error::Parse(reason),
        ),
{
    match decoded {
        Ok(message) => Ok(message),
        Err(reason) => Err(Error::Parse(reason)),
    }
}

/// Reads a message with the JSON reader `decode`. Only text messages are read: the others say
/// nothing, and `decode` is not asked.
pub fn parse_ws_message<D: Fn(String) -> Result<WebSocketMessage_, String>>(
    message: Message,
    decode: D,
) -> (parsed: Option<Result<WebSocketMessage_, Error>>)
    requires
        message matches Message::Text(text) ==> call_requires(decode, (text,)),
    ensures
        message matches Message::Text(text) ==> exists|decoded: Result<WebSocketMessage_, String>|
            #[trigger] call_ensures(decode, (text,), decoded) && parsed == Some(
                reading_of(decoded),
            ),
        !(message is Text) ==> parsed is None,
        message is Text ==> parsed is Some,
        match parsed {
            Some(Ok(object)) => call_ensures(decode, (message->Text_0,), Ok(object)),
            Some(Err(error)) => error matches Error::Parse(reason) && call_ensures(
                decode,
                (message->Text_0,),
                Err(reason),
            ),
            None => true,
        },
{
    match message {
        Message::Text(text) => {
            let decoded = decode(text);
            Some(decoded_message(decoded))
        },
        _ => None,
    }
}

/// Puts the JSON of an object into a text message, or takes the reason why it could not be written.
pub fn serialize_ws_message(json: Result<String, String>) -> (message: Result<Message, Error>)
    ensures
        message == (match json {
            Ok(text) => Ok(Message::Text(text)),
            Err(reason) => Err(Error::Parse(reason)),
        }),
{
    match json {
        Ok(text) => Ok(Message::Text(text)),
        Err(reason) => Err(Error::Parse(reason)),
    }
}

/// What became of a message that was handed to the connection.
pub fn transmitted(outcome: Result<(), String>) -> (result: Result<(), Error>)
    ensures
        result == (match outcome {
            Ok(()) => Ok(()),
            Err(reason) => Err(Error::WebSocket(reason)),
        }),
{
    match outcome {
        Ok(()) => Ok(()),
        Err(reason) => Err(Error::WebSocket(reason)),
    }
}

} // verus!
