//! Plain-value descriptions of the HTTP exchanges the pipeline performs.
//!
//! Nothing here touches the network. A [`Request`] says what is to be sent; a
//! [`Response`] or a [`TransportFailure`] says what came back.

use vstd::prelude::*;

verus! {

/// The HTTP method of a request.
#[derive(Clone, Copy, Debug, PartialEq, Eq, Structural)]
pub enum Method {
    Get,
    Post,
}

/// One outbound call: method, target, the three headers every call carries,
/// and the members of its JSON body, if it has one.
#[derive(Clone, Debug, PartialEq, Eq)]
pub struct Request {
    pub method: Method,
    pub url: String,
    /// Value of the `User-Agent` header.
    pub user_agent: String,
    /// Value of the `Accept` header.
    pub accept: String,
    /// Value of the `Authorization` header: scheme, one space, secret.
    pub authorization: String,
    /// Members of the JSON object sent as the body, as name and string value;
    /// `None` where the call has no body.
    pub body: Option<Vec<(String, String)>>,
}

/// Mathematical content of a [`Request`].
pub struct RequestView {
    pub method: Method,
    pub url: Seq<char>,
    pub user_agent: Seq<char>,
    pub accept: Seq<char>,
    pub authorization: Seq<char>,
    pub body: Option<Seq<(Seq<char>, Seq<char>)>>,
}

impl View for Request {
    type V = RequestView;

    open spec fn view(&self) -> RequestView {
        RequestView {
            method: self.method,
            url: self.url@,
            user_agent: self.user_agent@,
            accept: self.accept@,
            authorization: self.authorization@,
            body: self.body.deep_view(),
        }
    }
}

/// The headers of a request, by their lower-case names, in the order in
/// which they are set.
pub open spec fn headers_of(request: RequestView) -> Seq<(Seq<char>, Seq<char>)> {
    seq![
        ("user-agent"@, request.user_agent),
        ("accept"@, request.accept),
        ("authorization"@, request.authorization),
    ]
}

impl Request {
    /// The headers to set on the call, as name and value.
    pub fn headers(&self) -> (headers: Vec<(String, String)>)
        ensures
            headers.deep_view() == headers_of(self@),
    {
        let mut headers: Vec<(String, String)> = Vec::new();
        headers.push(("user-agent".to_owned(), self.user_agent.clone()));
        headers.push(("accept".to_owned(), self.accept.clone()));
        headers.push(("authorization".to_owned(), self.authorization.clone()));
        assert(headers.deep_view() =~= headers_of(self@));
        headers
    }
}

/// What the platform answered: status code and body text.
#[derive(Clone, Debug, PartialEq, Eq)]
pub struct Response {
    pub status: u16,
    pub body: String,
}

/// Mathematical content of a [`Response`].
pub struct ResponseView {
    pub status: u16,
    pub body: Seq<char>,
}

impl View for Response {
    type V = ResponseView;

    open spec fn view(&self) -> ResponseView {
        ResponseView { status: self.status, body: self.body@ }
    }
}

/// The call never produced a response: connection, TLS or timeout failure.
#[derive(Clone, Debug, PartialEq, Eq)]
pub struct TransportFailure {
    /// What the transport reported, for the operator.
    pub detail: String,
}

/// Mathematical content of what came of one call.
pub enum OutcomeView {
    Answered(ResponseView),
    Unreachable(Seq<char>),
}

/// The content of an outcome as the transport hands it over.
pub open spec fn outcome_view(outcome: Result<Response, TransportFailure>) -> OutcomeView {
    match outcome {
        Ok(response) => OutcomeView::Answered(response@),
        Err(failure) => OutcomeView::Unreachable(failure.detail@),
    }
}

/// Whether a status code is in the success class, `200..=299`.
pub open spec fn status_is_success(status: u16) -> bool {
    200 <= status <= 299
}

/// Tells whether `status` is in the success class.
pub fn is_success(status: u16) -> (ok: bool)
    ensures
        ok == status_is_success(status),
{
    200 <= status && status <= 299
}

} // verus!
