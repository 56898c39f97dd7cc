//! The JMAP values that travel over a connection.
use ahash::AHashMap;
use vstd::prelude::*;

use crate::error::{lend, lends};

verus! {

/// `ahash::AHashMap`, a hash map of the crate `ahash`.
#[verifier::external_type_specification]
#[verifier::external_body]
#[verifier::reject_recursive_types(K)]
#[verifier::reject_recursive_types(V)]
#[verifier::reject_recursive_types(S)]
pub struct ExAHashMap<K, V, S>(AHashMap<K, V, S>);

/// `ahash::RandomState`, which seeds the hasher of an `ahash::AHashMap`.
#[verifier::external_type_specification]
#[verifier::external_body]
pub struct ExRandomState(ahash::RandomState);

/// A capability that a request uses.
#[derive(Debug, PartialEq, Eq)]
pub struct URI {
    pub uri: String,
}

/// The name of a method that a request calls.
#[derive(Debug, PartialEq, Eq)]
pub struct Method {
    pub name: String,
}

/// The arguments of a method call, as JSON.
#[derive(Debug, PartialEq, Eq)]
pub struct Arguments {
    pub json: String,
}

/// A kind of JMAP object whose changes a server can push.
#[derive(Debug, PartialEq, Eq, Hash)]
pub struct DataType {
    pub name: String,
}

/// What one method call of a request was answered.
#[derive(Debug, PartialEq, Eq)]
pub struct TaggedMethodResponse {
    /// The name of the response.
    pub name: String,
    /// The arguments of the response, as JSON.
    pub arguments: String,
    /// The id that the method call had.
    pub id: String,
}

/// A request that a client built.
#[derive(Debug)]
pub struct Request {
    /// The number of the client that built the request.
    pub client: u64,
    pub using: Vec<URI>,
    pub method_calls: Vec<(Method, Arguments, String)>,
    pub created_ids: Option<AHashMap<String, String>>,
}

impl Request {
    /// Whether the client with the number `client` built the request.
    pub fn is_built_by(&self, client: u64) -> (built: bool)
        ensures
            built == (self.client == client),
    {
        self.client == client
    }
}

/// A response, whose method responses have the type `T`.
#[derive(Debug)]
pub struct Response<T> {
    pub method_responses: Vec<T>,
    pub created_ids: Option<AHashMap<String, String>>,
    pub session_state: String,
    pub request_id: Option<String>,
}

impl<T> Response<T> {
    pub fn new(
        method_responses: Vec<T>,
        created_ids: Option<AHashMap<String, String>>,
        session_state: String,
        request_id: Option<String>,
    ) -> (response: Response<T>)
        ensures
            response == (Response { method_responses, created_ids, session_state, request_id }),
    {
        Response { method_responses, created_ids, session_state, request_id }
    }

    /// The state of the session when the server answered.
    pub fn session_state(&self) -> (state: &str)
        ensures
            state@ == self.session_state@,
    {
        self.session_state.as_str()
    }

    /// The id of the request that the response answers.
    pub fn request_id(&self) -> (request_id: Option<&str>)
        ensures
            lends(request_id, self.request_id),
            request_id is Some <==> self.request_id is Some,
            self.request_id matches Some(text) ==> request_id->0@ == text@,
    {
        lend(&self.request_id)
    }
}

/// A notification that a server pushes.
#[derive(Debug)]
pub enum PushObject {
    /// New states, by account and by kind of object.
    StateChange { changed: AHashMap<String, AHashMap<DataType, String>> },
}

} // verus!
