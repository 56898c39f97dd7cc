//! The errors of a JMAP client and the problem details a server answers with.
use vstd::prelude::*;

use crate::text::join;

verus! {

/// What kind of problem a server reports.
#[derive(Debug, PartialEq, Eq)]
pub enum ProblemType {
    /// The problem type named by this URI.
    Other(String),
}

impl ProblemType {
    /// The URI that names the problem type.
    pub open spec fn uri(self) -> Seq<char> {
        match self {
            ProblemType::Other(uri) => uri@,
        }
    }
}

/// A problem that a server reports instead of a response.
#[derive(Debug)]
pub struct ProblemDetails {
    pub p_type: ProblemType,
    pub status: Option<u32>,
    pub title: Option<String>,
    pub detail: Option<String>,
    pub limit: Option<String>,
    pub request_id: Option<String>,
}

/// Whether a borrowed optional text is the text that `owned` holds.
pub open spec fn lends(borrowed: Option<&str>, owned: Option<String>) -> bool {
    match (borrowed, owned) {
        (Some(lent), Some(text)) => lent@ == text@,
        (None, None) => true,
        _ => false,
    }
}

/// The text that `owned` holds, borrowed.
pub fn lend(owned: &Option<String>) -> (borrowed: Option<&str>)
    ensures
        lends(borrowed, *owned),
        borrowed is Some <==> owned is Some,
        owned matches Some(text) ==> borrowed->0@ == text@,
{
    match owned {
        Some(text) => Some(text.as_str()),
        None => None,
    }
}

impl ProblemDetails {
    pub fn new(
        p_type: ProblemType,
        status: Option<u32>,
        title: Option<String>,
        detail: Option<String>,
        limit: Option<String>,
        request_id: Option<String>,
    ) -> (problem: ProblemDetails)
        ensures
            problem == (ProblemDetails { p_type, status, title, detail, limit, request_id }),
    {
        ProblemDetails { p_type, status, title, detail, limit, request_id }
    }

    /// The HTTP status that goes with the problem.
    pub fn status(&self) -> (status: Option<u32>)
        ensures
            status == self.status,
    {
        self.status
    }

    /// The id of the request that the problem answers.
    pub fn request_id(&self) -> (request_id: Option<&str>)
        ensures
            lends(request_id, self.request_id),
            request_id is Some <==> self.request_id is Some,
            self.request_id matches Some(text) ==> request_id->0@ == text@,
    {
        lend(&self.request_id)
    }
}

/// What can go wrong on a connection.
#[derive(Debug)]
pub enum Error {
    /// A condition that the client itself found.
    Internal(String),
    /// JSON that could not be read or written, with the reason.
    Parse(String),
    /// A failure of the WebSocket connection, with the reason.
    WebSocket(String),
    /// A problem that the server reported.
    Problem(ProblemDetails),
}

/// What an [`Error`] says, with its texts as sequences of characters.
pub enum ErrorView {
    Internal(Seq<char>),
    Parse(Seq<char>),
    WebSocket(Seq<char>),
    Problem(ProblemDetails),
}

impl View for Error {
    type V = ErrorView;

    open spec fn view(&self) -> ErrorView {
        match *self {
            Error::Internal(text) => ErrorView::Internal(text@),
            Error::Parse(text) => ErrorView::Parse(text@),
            Error::WebSocket(text) => ErrorView::WebSocket(text@),
            Error::Problem(problem) => ErrorView::Problem(problem),
        }
    }
}

impl ErrorView {
    /// The error in words.
    pub open spec fn message(self) -> Seq<char> {
        match self {
            ErrorView::Internal(text) => "Internal error: "@ + text,
            ErrorView::Parse(text) => "Parse error: "@ + text,
            ErrorView::WebSocket(text) => "WebSockets error: "@ + text,
            ErrorView::Problem(problem) => "Request failed: "@ + problem.p_type.uri(),
        }
    }
}

impl Error {
    /// The error [`Error::Internal`] with the text `text`.
    pub fn internal(text: &str) -> (error: Error)
        ensures
            error@ == ErrorView::Internal(text@),
            error matches Error::Internal(held) && held@ == text@,
    {
        Error::Internal(text.to_string())
    }

    /// The error in words.
    pub fn message(&self) -> (text: String)
        ensures
            text@ == self@.message(),
            match *self {
                Error::Internal(reason) => text@ == "Internal error: "@ + reason@,
                Error::Parse(reason) => text@ == "Parse error: "@ + reason@,
                Error::WebSocket(reason) => text@ == "WebSockets error: "@ + reason@,
                Error::Problem(problem) => problem.p_type matches ProblemType::Other(uri)
                    && text@ == "Request failed: "@ + uri@,
            },
    {
        let text: String = match self {
            Error::Internal(text) => join("Internal error: ", text.as_str(), ""),
            Error::Parse(text) => join("Parse error: ", text.as_str(), ""),
            Error::WebSocket(text) => join("WebSockets error: ", text.as_str(), ""),
            Error::Problem(problem) => match &problem.p_type {
                ProblemType::Other(uri) => join("Request failed: ", uri.as_str(), ""),
            },
        };
        proof {
            reveal_strlit("");
            assert(text@ =~= self@.message());
        }
        text
    }
}

} // verus!
