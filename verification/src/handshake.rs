//! The HTTP request that opens a WebSocket connection, and how its TLS is checked.
use tokio_tungstenite::tungstenite::client::IntoClientRequest;
use tokio_tungstenite::tungstenite::http::Request as HttpRequest;
use vstd::prelude::*;
use vstd::utf8::encode_utf8;

use crate::error::{Error, ErrorView};
use crate::text::{header_text, starts_with};

verus! {

/// The name of the header that authorizes a request.
pub const AUTHORIZATION: &'static str = "authorization";

/// The name of the header that asks for a subprotocol.
pub const SEC_WEBSOCKET_PROTOCOL: &'static str = "sec-websocket-protocol";

/// `http::Request`, an HTTP request of the crate `http` that `tungstenite` works on.
#[verifier::external_type_specification]
#[verifier::external_body]
#[verifier::reject_recursive_types(T)]
pub struct ExHttpRequest<T>(HttpRequest<T>);

/// The headers of `request`: for each name, in lower case, the values that it has.
pub uninterp spec fn request_headers(request: HttpRequest<()>) -> Map<Seq<char>, Seq<Seq<u8>>>;

/// The URI that `request` goes to, as text.
pub uninterp spec fn request_uri(request: HttpRequest<()>) -> Seq<char>;

/// What `into_client_request` makes of a URL: the URI and the value of the `Host` header, or the
/// reason why the URL cannot be used.
pub uninterp spec fn client_request_of(url: Seq<char>) -> Result<
    (Seq<char>, Seq<u8>),
    Seq<char>,
>;

/// Whether `headers` are those of a new client request for `host`, with a random key.
pub open spec fn client_headers(headers: Map<Seq<char>, Seq<Seq<u8>>>, host: Seq<u8>) -> bool {
    &&& headers.dom() == set![
        "host"@,
        "connection"@,
        "upgrade"@,
        "sec-websocket-version"@,
        "sec-websocket-key"@,
    ]
    &&& headers["host"@] == seq![host]
    &&& headers["connection"@] == seq![encode_utf8("Upgrade"@)]
    &&& headers["upgrade"@] == seq![encode_utf8("websocket"@)]
    &&& headers["sec-websocket-version"@] == seq![encode_utf8("13"@)]
    &&& headers["sec-websocket-key"@].len() == 1
    &&& headers["sec-websocket-key"@][0].len() == 24
}

/// `tungstenite::client::IntoClientRequest::into_client_request` on a `&str`: parses the URL and
/// makes the request that opens a WebSocket connection to it. Which URI it goes to, its `Host`, and
/// whether and why the URL is refused, depend on the URL alone. The key is random: nothing is said of
/// it but that there is one, of 24 bytes, as 16 bytes make in Base64.
#[verifier::external_body]
fn client_request(url: &str) -> (made: Result<HttpRequest<()>, String>)
    ensures
        match made {
            Ok(request) => client_request_of(url@) matches Ok(target) && request_uri(request)
                == target.0 && client_headers(request_headers(request), target.1),
            Err(reason) => client_request_of(url@) == Err::<(Seq<char>, Seq<u8>), Seq<char>>(
                reason@,
            ),
        },
{
    url.into_client_request().map_err(|error| error.to_string())
}

/// Whether `name` is a header name in lower case, of letters and hyphens.
pub open spec fn header_name(name: Seq<char>) -> bool {
    &&& 0 < name.len() <= 64
    &&& forall|i: int| 0 <= i < name.len() ==> #[trigger] name[i] == '-' || 'a' <= name[i] <= 'z'
}

/// `http::HeaderMap::insert` on the headers of a request: `value` becomes the one value of the header
/// `name`, and no other header changes. It panics where the value holds a control character, and
/// where the map would grow past its limit.
#[verifier::external_body]
fn insert_header(request: &mut HttpRequest<()>, name: &'static str, value: &str)
    requires
        header_name(name@),
        header_text(value@),
        request_headers(*old(request)).dom().finite(),
        request_headers(*old(request)).dom().len() < 6000,
    ensures
        request_uri(*final(request)) == request_uri(*old(request)),
        request_headers(*final(request)) == request_headers(*old(request)).insert(
            name@,
            seq![encode_utf8(value@)],
        ),
{
    request.headers_mut().insert(name, value.parse().unwrap());
}

/// What is needed to open a WebSocket connection.
#[derive(Debug)]
pub struct WsHandshake {
    /// The request that opens the connection.
    pub request: HttpRequest<()>,
    /// Whether the certificate of the server is to be accepted unseen.
    pub accept_any_cert: bool,
}

/// Whether `headers` are those of the request that opens a JMAP connection to `host`.
pub open spec fn jmap_headers(
    headers: Map<Seq<char>, Seq<Seq<u8>>>,
    host: Seq<u8>,
    authorization: Seq<char>,
) -> bool {
    exists|client: Map<Seq<char>, Seq<Seq<u8>>>| #[trigger]
        client_headers(client, host) && headers == client.insert(
            AUTHORIZATION@,
            seq![encode_utf8(authorization)],
        ).insert(SEC_WEBSOCKET_PROTOCOL@, seq![encode_utf8("jmap"@)])
}

/// Completes a client request for a JMAP connection: the authorization and the subprotocol take the
/// place of any headers of these names.
pub fn with_jmap_headers(request: HttpRequest<()>, authorization: &str) -> (completed: HttpRequest<
    (),
>)
    requires
        header_text(authorization@),
        request_headers(request).dom().finite(),
        request_headers(request).dom().len() < 5999,
    ensures
        request_uri(completed) == request_uri(request),
        request_headers(completed) == request_headers(request).insert(
            AUTHORIZATION@,
            seq![encode_utf8(authorization@)],
        ).insert(SEC_WEBSOCKET_PROTOCOL@, seq![encode_utf8("jmap"@)]),
{
    let mut request = request;
    proof {
        reveal_strlit("authorization");
        reveal_strlit("sec-websocket-protocol");
        reveal_strlit("jmap");
    }
    insert_header(&mut request, AUTHORIZATION, authorization);
    insert_header(&mut request, SEC_WEBSOCKET_PROTOCOL, "jmap");
    request
}

/// Makes the request that opens a JMAP connection to `url`.
pub fn jmap_request(url: &str, authorization: &str) -> (made: Result<HttpRequest<()>, Error>)
    requires
        client_request_of(url@) is Ok ==> header_text(authorization@),
    ensures
        match made {
            Ok(request) => client_request_of(url@) matches Ok(target) && request_uri(request)
                == target.0 && jmap_headers(request_headers(request), target.1, authorization@),
            Err(error) => client_request_of(url@) matches Err(reason) && error@
                == ErrorView::WebSocket(reason),
        },
        made matches Ok(request) ==> request_headers(request)["authorization"@] == seq![
            encode_utf8(authorization@),
        ],
        made matches Ok(request) ==> request_headers(request)["sec-websocket-protocol"@] == seq![
            encode_utf8("jmap"@),
        ],
        made matches Err(error) ==> error is WebSocket,
{
    proof {
        reveal_strlit("authorization");
        reveal_strlit("sec-websocket-protocol");
        assert("authorization"@.len() != "sec-websocket-protocol"@.len());
    }
    match client_request(url) {
        Ok(request) => Ok(with_jmap_headers(request, authorization)),
        Err(reason) => Err(Error::WebSocket(reason)),
    }
}

/// Whether a client can be made to connect to `url` at all.
pub fn is_client_url(url: &str) -> (usable: bool)
    ensures
        usable == (client_request_of(url@) is Ok),
{
    match client_request(url) {
        Ok(_) => true,
        Err(_) => false,
    }
}

/// Whether the certificate of the server at `url` is accepted unseen: only over TLS, and only where
/// the client asks for it.
pub fn accepts_any_cert(accept_invalid_certs: bool, url: &str) -> (accepts: bool)
    ensures
        accepts == (accept_invalid_certs && "wss"@.is_prefix_of(url@)),
{
    accept_invalid_certs && starts_with(url, "wss")
}

} // verus!
