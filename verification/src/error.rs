//! Why a step of the exchange failed.

use vstd::prelude::*;

verus! {

/// Number of characters of a response body that a failure keeps.
pub const SNIPPET_LIMIT: usize = 200;

/// A string member that a response body must have.
#[derive(Clone, Copy, Debug, PartialEq, Eq, Structural)]
pub enum Field {
    Token,
    ExpiresAt,
    TokenSchema,
    Url,
}

/// The member's name in the JSON document.
pub open spec fn field_name(field: Field) -> Seq<char> {
    match field {
        Field::Token => "token"@,
        Field::ExpiresAt => "expires_at"@,
        Field::TokenSchema => "token_schema"@,
        Field::Url => "url"@,
    }
}

impl Field {
    /// The member's name in the JSON document.
    pub fn name(self) -> (name: &'static str)
        ensures
            name@ == field_name(self),
    {
        match self {
            Field::Token => "token",
            Field::ExpiresAt => "expires_at",
            Field::TokenSchema => "token_schema",
            Field::Url => "url",
        }
    }
}

/// A run could not be set up: a value it needs was not supplied. It is fatal
/// and comes before any call.
#[derive(Clone, Copy, Debug, PartialEq, Eq, Structural)]
pub enum ConfigurationError {
    /// The long-lived credential is absent.
    MissingCredential,
}

/// The two classes of failure a step can meet.
#[derive(Clone, Copy, Debug, PartialEq, Eq, Structural)]
pub enum ErrorKind {
    /// No response arrived.
    Transport,
    /// A response arrived and was not what the step needs.
    Protocol,
}

/// A failed step. Every variant is fatal to the pipeline; they differ only in
/// what they keep for the operator.
#[derive(Clone, Debug, PartialEq, Eq)]
pub enum RequestError {
    /// The transport gave up before any response.
    Transport { detail: String },
    /// The response's status is outside `200..=299`.
    Status { status: u16, snippet: String },
    /// The status is a success and the body is not a JSON document.
    InvalidJson { status: u16, snippet: String },
    /// The body is a JSON document without a string member named `field`.
    MissingField { status: u16, field: Field, snippet: String },
}

/// Mathematical content of a [`RequestError`].
pub enum RequestErrorView {
    Transport { detail: Seq<char> },
    Status { status: u16, snippet: Seq<char> },
    InvalidJson { status: u16, snippet: Seq<char> },
    MissingField { status: u16, field: Field, snippet: Seq<char> },
}

impl View for RequestError {
    type V = RequestErrorView;

    open spec fn view(&self) -> RequestErrorView {
        match self {
            RequestError::Transport { detail } => RequestErrorView::Transport { detail: detail@ },
            RequestError::Status { status, snippet } => RequestErrorView::Status {
                status: *status,
                snippet: snippet@,
            },
            RequestError::InvalidJson { status, snippet } => RequestErrorView::InvalidJson {
                status: *status,
                snippet: snippet@,
            },
            RequestError::MissingField { status, field, snippet } => RequestErrorView::MissingField {
                status: *status,
                field: *field,
                snippet: snippet@,
            },
        }
    }
}

/// The class of a failure: a transport error where no response arrived, a
/// protocol error otherwise.
pub open spec fn kind_of(error: RequestErrorView) -> ErrorKind {
    match error {
        RequestErrorView::Transport { .. } => ErrorKind::Transport,
        _ => ErrorKind::Protocol,
    }
}

impl RequestError {
    /// The class of this failure.
    pub fn kind(&self) -> (kind: ErrorKind)
        ensures
            kind == kind_of(self@),
    {
        match self {
            RequestError::Transport { .. } => ErrorKind::Transport,
            _ => ErrorKind::Protocol,
        }
    }

    /// The status code of the response that failed the step, where one arrived.
    pub fn status(&self) -> (status: Option<u16>)
        ensures
            status == match self@ {
                RequestErrorView::Transport { .. } => None,
                RequestErrorView::Status { status, .. } => Some(status),
                RequestErrorView::InvalidJson { status, .. } => Some(status),
                RequestErrorView::MissingField { status, .. } => Some(status),
            },
    {
        match self {
            RequestError::Transport { .. } => None,
            RequestError::Status { status, .. } => Some(*status),
            RequestError::InvalidJson { status, .. } => Some(*status),
            RequestError::MissingField { status, .. } => Some(*status),
        }
    }
}

/// The first [`SNIPPET_LIMIT`] characters of `body`, or all of it where it is
/// shorter.
pub open spec fn snippet_of(body: Seq<char>) -> Seq<char> {
    if body.len() <= SNIPPET_LIMIT {
        body
    } else {
        body.subrange(0, SNIPPET_LIMIT as int)
    }
}

/// Cuts `body` down to what a failure keeps of it.
pub fn snippet(body: &str) -> (kept: String)
    ensures
        kept@ == snippet_of(body@),
{
    if body.unicode_len() <= SNIPPET_LIMIT {
        body.to_owned()
    } else {
        body.substring_char(0, SNIPPET_LIMIT).to_owned()
    }
}

} // verus!
