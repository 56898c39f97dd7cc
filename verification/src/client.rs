//! A JMAP client that opens WebSocket connections.
use vstd::prelude::*;

use crate::correlated::{
    into_request_object, ping, push_disable, push_enable, request_object, CorrelatedView,
    CorrelatedWs, Outgoing,
};
use crate::error::{Error, ErrorView};
use crate::handshake::{
    accepts_any_cert, client_request_of, is_client_url, jmap_headers, jmap_request, request_headers,
    request_uri, WsHandshake,
};
use crate::ids::{next_number, WsStream};
use crate::model::{DataType, Request};
use crate::text::{decimal, header_text, is_header_text};
use crate::timeout::Timeout;
use crate::wire::{
    Message, WebSocketPushDisable, WebSocketPushDisableType, WebSocketPushEnable,
    WebSocketPushEnableType,
};

verus! {

/// What a server says of its WebSocket endpoint.
#[derive(Debug, PartialEq, Eq)]
pub struct WebSocketCapabilities {
    pub url: String,
}

impl WebSocketCapabilities {
    /// Where the endpoint is.
    pub fn url(&self) -> (url: &str)
        ensures
            url@ == self.url@,
    {
        self.url.as_str()
    }
}

/// What a [`Client`] holds.
pub struct ClientView {
    /// The number by which requests know the client.
    pub id: u64,
    /// The URL of the WebSocket endpoint, where the server advertises one.
    pub websocket: Option<Seq<char>>,
    /// What the client authorizes itself with.
    pub authorization: Seq<char>,
    pub accept_invalid_certs: bool,
    pub timeout: Timeout,
    /// The number of the next request on the connection, where there is one.
    pub ws: Option<u64>,
}

impl ClientView {
    /// Whether the authorization cannot go into the request that opens a connection, though there is
    /// one to be made.
    pub open spec fn cannot_authorize(self) -> bool {
        &&& self.websocket matches Some(url) && client_request_of(url) is Ok
        &&& !header_text(self.authorization)
    }
}

/// Whether `opened` is what the client needs to open a connection, or the error that keeps it from
/// that: no endpoint, or one whose URL cannot be used.
pub open spec fn is_opening(client: ClientView, opened: Result<WsHandshake, Error>) -> bool {
    match client.websocket {
        None => opened matches Err(error) && error@ == ErrorView::Internal(
            "JMAP server does not advertise any websocket capabilities."@,
        ),
        Some(url) => match opened {
            Ok(handshake) => {
                &&& client_request_of(url) matches Ok(target) && request_uri(handshake.request)
                    == target.0 && jmap_headers(
                    request_headers(handshake.request),
                    target.1,
                    client.authorization,
                )
                &&& handshake.accept_any_cert == (client.accept_invalid_certs
                    && "wss"@.is_prefix_of(url))
            },
            Err(error) => client_request_of(url) matches Err(reason) && error@
                == ErrorView::WebSocket(reason),
        },
    }
}

/// The error of a client that has no connection.
pub open spec fn not_connected() -> ErrorView {
    ErrorView::Internal("Websocket stream not set."@)
}

/// A JMAP client.
#[derive(Debug)]
pub struct Client {
    id: u64,
    websocket: Option<WebSocketCapabilities>,
    authorization: String,
    accept_invalid_certs: bool,
    timeout: Timeout,
    ws: Option<WsStream>,
}

impl View for Client {
    type V = ClientView;

    closed spec fn view(&self) -> ClientView {
        ClientView {
            id: self.id,
            websocket: match self.websocket {
                Some(capabilities) => Some(capabilities.url@),
                None => None,
            },
            authorization: self.authorization@,
            accept_invalid_certs: self.accept_invalid_certs,
            timeout: self.timeout,
            ws: match self.ws {
                Some(stream) => Some(stream@),
                None => None,
            },
        }
    }
}

impl Client {
    /// A client without a connection.
    pub fn new(
        id: u64,
        websocket: Option<WebSocketCapabilities>,
        authorization: String,
        accept_invalid_certs: bool,
        timeout: Timeout,
    ) -> (client: Client)
        ensures
            client@ == (ClientView {
                id,
                websocket: match websocket {
                    Some(capabilities) => Some(capabilities.url@),
                    None => None,
                },
                authorization: authorization@,
                accept_invalid_certs,
                timeout,
                ws: None,
            }),
    {
        Client { id, websocket, authorization, accept_invalid_certs, timeout, ws: None }
    }

    /// The number by which requests know the client.
    pub fn id(&self) -> (id: u64)
        ensures
            id == self@.id,
    {
        self.id
    }

    /// How long a request waits for its response.
    pub fn timeout(&self) -> (timeout: Timeout)
        ensures
            timeout == self@.timeout,
    {
        self.timeout
    }

    /// What the server says of its WebSocket endpoint.
    pub fn websocket_capabilities(&self) -> (capabilities: Option<&WebSocketCapabilities>)
        ensures
            match capabilities {
                Some(capabilities) => self@.websocket == Some(capabilities.url@),
                None => self@.websocket is None,
            },
    {
        self.websocket.as_ref()
    }

    /// Makes what is needed to open a connection.
    pub fn open_ws(&self) -> (opened: Result<WsHandshake, Error>)
        requires
            !self@.cannot_authorize(),
        ensures
            is_opening(self@, opened),
    {
        let url: &str = match self.websocket_capabilities() {
            Some(capabilities) => capabilities.url(),
            None => {
                return Err(
                    Error::internal("JMAP server does not advertise any websocket capabilities."),
                );
            },
        };
        match jmap_request(url, self.authorization.as_str()) {
            Ok(request) => Ok(
                WsHandshake {
                    request,
                    accept_any_cert: accepts_any_cert(self.accept_invalid_certs, url),
                },
            ),
            Err(error) => Err(error),
        }
    }

    /// Makes what is needed to open a connection, or nothing where the authorization cannot go into
    /// the request.
    pub fn try_open_ws(&self) -> (opened: Option<Result<WsHandshake, Error>>)
        ensures
            match opened {
                Some(opened) => !self@.cannot_authorize() && is_opening(self@, opened),
                None => self@.cannot_authorize(),
            },
    {
        if !is_header_text(self.authorization.as_str()) {
            if let Some(capabilities) = self.websocket_capabilities() {
                if is_client_url(capabilities.url()) {
                    return None;
                }
            }
        }
        Some(self.open_ws())
    }

    /// Takes a connection that was just opened in the place of the one that the client had.
    pub fn connect_ws(&mut self)
        ensures
            final(self)@ == (ClientView { ws: Some(0), ..old(self)@ }),
    {
        self.ws = Some(WsStream::new());
    }

    /// Takes a connection that was just opened and that takes each response to whoever waits for it.
    pub fn connect_ws_correlated(&self) -> (ws: CorrelatedWs)
        ensures
            ws@ == (CorrelatedView {
                client: self@.id,
                timeout: self@.timeout,
                req_id: 0,
                pending: Map::empty(),
                armed: true,
            }),
            ws@.wf(),
    {
        CorrelatedWs::new(self.id, self.timeout)
    }

    /// Prepares a request to be sent over the connection, under the id that its response will bear.
    pub fn send_ws(&mut self, request: Request) -> (outgoing: Result<Outgoing, Error>)
        ensures
            final(self)@ == (ClientView {
                ws: match old(self)@.ws {
                    Some(number) => Some(next_number(number)),
                    None => None,
                },
                ..old(self)@
            }),
            match outgoing {
                Ok(outgoing) => {
                    &&& old(self)@.ws matches Some(number) && number < u64::MAX
                        && outgoing.request_id@ == decimal(number as nat)
                    &&& outgoing.object == request_object(outgoing.request_id, request)
                    &&& outgoing.object.id == Some(outgoing.request_id)
                    &&& outgoing.object.using == request.using
                    &&& outgoing.object.method_calls == request.method_calls
                    &&& outgoing.object.created_ids == request.created_ids
                },
                Err(error) => match old(self)@.ws {
                    Some(number) => number == u64::MAX && error@ == ErrorView::Internal(
                        "WebSocket request id overflow."@,
                    ),
                    None => error@ == not_connected(),
                },
            },
    {
        match self.ws.take() {
            Some(stream) => {
                let mut stream = stream;
                let issued = stream.next_request_id();
                self.ws = Some(stream);
                match issued {
                    Ok(request_id) => {
                        let object = into_request_object(request_id.clone(), request);
                        Ok(Outgoing { request_id, object })
                    },
                    Err(error) => Err(error),
                }
            },
            None => Err(Error::internal("Websocket stream not set.")),
        }
    }

    /// Asks the server to push notifications of `data_types`, or of everything.
    pub fn enable_push_ws(
        &self,
        data_types: Option<Vec<DataType>>,
        push_state: Option<String>,
    ) -> (object: Result<WebSocketPushEnable, Error>)
        ensures
            match object {
                Ok(object) => self@.ws is Some && object == (WebSocketPushEnable {
                    _type: WebSocketPushEnableType::WebSocketPushEnable,
                    data_types,
                    push_state,
                }),
                Err(error) => self@.ws is None && error@ == not_connected(),
            },
    {
        match &self.ws {
            Some(_) => Ok(push_enable(data_types, push_state)),
            None => Err(Error::internal("Websocket stream not set.")),
        }
    }

    /// Asks the server to push no more notifications.
    pub fn disable_push_ws(&self) -> (object: Result<WebSocketPushDisable, Error>)
        ensures
            match object {
                Ok(object) => self@.ws is Some && object == (WebSocketPushDisable {
                    _type: WebSocketPushDisableType::WebSocketPushDisable,
                }),
                Err(error) => self@.ws is None && error@ == not_connected(),
            },
    {
        match &self.ws {
            Some(_) => Ok(push_disable()),
            None => Err(Error::internal("Websocket stream not set.")),
        }
    }

    /// Asks the server for a sign of life.
    pub fn ws_ping(&self) -> (message: Result<Message, Error>)
        ensures
            match message {
                Ok(message) => message matches Message::Ping(payload) && payload@.len() == 0
                    && self@.ws is Some,
                Err(error) => self@.ws is None && error@ == not_connected(),
            },
    {
        match &self.ws {
            Some(_) => Ok(ping()),
            None => Err(Error::internal("Websocket stream not set.")),
        }
    }
}

/// What [`Client::send_ws`] came to, once the request was handed to the connection.
pub fn sent_ws(request_id: String, outcome: Result<(), String>) -> (result: Result<String, Error>)
    ensures
        result == (match outcome {
            Ok(()) => Ok(request_id),
            Err(reason) => Err(Error::WebSocket(reason)),
        }),
{
    match outcome {
        Ok(()) => Ok(request_id),
        Err(reason) => Err(Error::WebSocket(reason)),
    }
}

} // verus!
