//! The steps of the exchange, each as two halves: the request to send, and
//! the reading of what came back. Sending is the caller's part.

use crate::config::{Config, ConfigView};
use crate::error::{
    kind_of, snippet, snippet_of, ErrorKind, Field, RequestError, RequestErrorView,
};
use crate::http::{
    is_success, outcome_view, status_is_success, Method, OutcomeView, Request, RequestView,
    Response, ResponseView, TransportFailure,
};
use crate::json::{json_of, parse, parsed, text_member_of, Json};
use crate::token::{
    jit_token_in, registration_in, JIRToken, JIRTokenView, RunnerRegistration,
    RunnerRegistrationView,
};
use vstd::prelude::*;

verus! {

/// The media type every call asks for.
pub open spec fn accept_media_type() -> Seq<char> {
    "application/vnd.github+json"@
}

/// An `Authorization` value of the standard bearer scheme.
pub open spec fn bearer(secret: Seq<char>) -> Seq<char> {
    "Bearer "@ + secret
}

/// An `Authorization` value of the platform's own scheme, under which the
/// registration token travels.
pub open spec fn remote_auth(secret: Seq<char>) -> Seq<char> {
    "RemoteAuth "@ + secret
}

/// The request of the registration-token step.
pub open spec fn jit_runner_token_request_view(
    config: ConfigView,
    github_pat: Seq<char>,
    repo_name: Seq<char>,
) -> RequestView {
    RequestView {
        method: Method::Post,
        url: config.api_url + "/repos/"@ + repo_name + "/actions/runners/registration-token"@,
        user_agent: config.user_agent,
        accept: accept_media_type(),
        authorization: bearer(github_pat),
        body: None,
    }
}

/// The body of the tenant-credential request: the repository's web address
/// and the fixed event name.
pub open spec fn tenant_creds_body(config: ConfigView, repo_name: Seq<char>) -> Seq<
    (Seq<char>, Seq<char>),
> {
    seq![("url"@, config.web_url + "/"@ + repo_name), ("runner_event"@, "register"@)]
}

/// The request of the tenant-credential step.
pub open spec fn tenant_creds_request_view(
    config: ConfigView,
    jit_token: Seq<char>,
    repo_name: Seq<char>,
) -> RequestView {
    RequestView {
        method: Method::Post,
        url: config.api_url + "/actions/runner-registration"@,
        user_agent: config.user_agent,
        accept: accept_media_type(),
        authorization: remote_auth(jit_token),
        body: Some(tenant_creds_body(config, repo_name)),
    }
}

/// The request that lists the repository's runners.
pub open spec fn list_runners_request_view(
    config: ConfigView,
    github_pat: Seq<char>,
    repo_name: Seq<char>,
) -> RequestView {
    RequestView {
        method: Method::Get,
        url: config.api_url + "/repos/"@ + repo_name + "/actions/runners"@,
        user_agent: config.user_agent,
        accept: accept_media_type(),
        authorization: bearer(github_pat),
        body: None,
    }
}

/// The request that registers a runner.
pub open spec fn register_runner_request_view(
    config: ConfigView,
    jit_token: Seq<char>,
    repo_name: Seq<char>,
) -> RequestView {
    RequestView {
        method: Method::Get,
        url: config.api_url + "/repos/"@ + repo_name + "/actions/runners/register"@,
        user_agent: config.user_agent,
        accept: accept_media_type(),
        authorization: remote_auth(jit_token),
        body: None,
    }
}

/// Joins a scheme, with its trailing space, and a secret.
fn authorization(scheme: &str, secret: &str) -> (value: String)
    ensures
        value@ == scheme@ + secret@,
{
    let mut value = scheme.to_owned();
    value.append(secret);
    value
}

/// The address of a resource under the repository's runners.
fn repository_url(config: &Config, repo_name: &str, resource: &str) -> (url: String)
    ensures
        url@ == config.api_url@ + "/repos/"@ + repo_name@ + resource@,
{
    let mut url = config.api_url.clone();
    url.append("/repos/");
    url.append(repo_name);
    url.append(resource);
    url
}

/// Describes the call that asks for a registration token: a `POST` to the
/// repository's `registration-token` resource, under the bearer scheme with
/// the long-lived credential, without a body.
pub fn jit_runner_token_request(config: &Config, github_pat: &str, repo_name: &str) -> (request:
    Request)
    ensures
        request@ == jit_runner_token_request_view(config@, github_pat@, repo_name@),
{
    Request {
        method: Method::Post,
        url: repository_url(config, repo_name, "/actions/runners/registration-token"),
        user_agent: config.user_agent.clone(),
        accept: "application/vnd.github+json".to_owned(),
        authorization: authorization("Bearer ", github_pat),
        body: None,
    }
}

/// Describes the call that exchanges a registration token for the runner
/// registration credential: a `POST` to the fixed `runner-registration`
/// resource, under the `RemoteAuth` scheme with the registration token. The
/// long-lived credential is no input to it.
pub fn tenant_creds_request(config: &Config, jit_token: &str, repo_name: &str) -> (request: Request)
    ensures
        request@ == tenant_creds_request_view(config@, jit_token@, repo_name@),
        request.authorization@ == "RemoteAuth "@ + jit_token@,
        request.body.deep_view() == Some(
            seq![("url"@, config.web_url@ + "/"@ + repo_name@), ("runner_event"@, "register"@)],
        ),
{
    let mut url = config.api_url.clone();
    url.append("/actions/runner-registration");
    let mut repository = config.web_url.clone();
    repository.append("/");
    repository.append(repo_name);
    let mut body: Vec<(String, String)> = Vec::new();
    body.push(("url".to_owned(), repository));
    body.push(("runner_event".to_owned(), "register".to_owned()));
    assert(body.deep_view() =~= tenant_creds_body(config@, repo_name@));
    Request {
        method: Method::Post,
        url,
        user_agent: config.user_agent.clone(),
        accept: "application/vnd.github+json".to_owned(),
        authorization: authorization("RemoteAuth ", jit_token),
        body: Some(body),
    }
}

/// Describes the call that lists the repository's runners: a `GET` under the
/// bearer scheme with the long-lived credential.
pub fn list_runners_request(config: &Config, github_pat: &str, repo_name: &str) -> (request:
    Request)
    ensures
        request@ == list_runners_request_view(config@, github_pat@, repo_name@),
{
    Request {
        method: Method::Get,
        url: repository_url(config, repo_name, "/actions/runners"),
        user_agent: config.user_agent.clone(),
        accept: "application/vnd.github+json".to_owned(),
        authorization: authorization("Bearer ", github_pat),
        body: None,
    }
}

/// Describes the call that registers a runner: a `GET` under the `RemoteAuth`
/// scheme with the registration token.
pub fn register_runner_request(config: &Config, jit_token: &str, repo_name: &str) -> (request:
    Request)
    ensures
        request@ == register_runner_request_view(config@, jit_token@, repo_name@),
{
    Request {
        method: Method::Get,
        url: repository_url(config, repo_name, "/actions/runners/register"),
        user_agent: config.user_agent.clone(),
        accept: "application/vnd.github+json".to_owned(),
        authorization: authorization("RemoteAuth ", jit_token),
        body: None,
    }
}

/// The response of a call, where one arrived with a success status; the
/// failure otherwise.
pub open spec fn accepted(outcome: OutcomeView) -> Result<ResponseView, RequestErrorView> {
    match outcome {
        OutcomeView::Unreachable(detail) => Err(RequestErrorView::Transport { detail }),
        OutcomeView::Answered(response) => if status_is_success(response.status) {
            Ok(response)
        } else {
            Err(
                RequestErrorView::Status {
                    status: response.status,
                    snippet: snippet_of(response.body),
                },
            )
        },
    }
}

/// The document in the body of an accepted response.
pub open spec fn document_of(response: ResponseView) -> Result<Json, RequestErrorView> {
    match parsed(response.body) {
        Some(json) => Ok(json),
        None => Err(
            RequestErrorView::InvalidJson {
                status: response.status,
                snippet: snippet_of(response.body),
            },
        ),
    }
}

/// The failure of a response whose document lacks `field`.
pub open spec fn missing(response: ResponseView, field: Field) -> RequestErrorView {
    RequestErrorView::MissingField {
        status: response.status,
        field,
        snippet: snippet_of(response.body),
    }
}

/// What the registration-token step yields for each outcome of its call.
pub open spec fn jit_runner_token_from(outcome: OutcomeView) -> Result<
    JIRTokenView,
    RequestErrorView,
> {
    match accepted(outcome) {
        Err(error) => Err(error),
        Ok(response) => match document_of(response) {
            Err(error) => Err(error),
            Ok(json) => match jit_token_in(json) {
                Ok(token) => Ok(token),
                Err(field) => Err(missing(response, field)),
            },
        },
    }
}

/// What the tenant-credential step yields for each outcome of its call.
pub open spec fn tenant_creds_from(outcome: OutcomeView) -> Result<
    RunnerRegistrationView,
    RequestErrorView,
> {
    match accepted(outcome) {
        Err(error) => Err(error),
        Ok(response) => match document_of(response) {
            Err(error) => Err(error),
            Ok(json) => match registration_in(json) {
                Ok(registration) => Ok(registration),
                Err(field) => Err(missing(response, field)),
            },
        },
    }
}

/// What a runner-action step yields for each outcome of its call: the body
/// as it came.
pub open spec fn runner_action_output_from(outcome: OutcomeView) -> Result<
    Seq<char>,
    RequestErrorView,
> {
    match accepted(outcome) {
        Err(error) => Err(error),
        Ok(response) => Ok(response.body),
    }
}

/// Sorts an outcome into a response to read and a failure to report.
fn accept(outcome: Result<Response, TransportFailure>) -> (r: Result<Response, RequestError>)
    ensures
        match accepted(outcome_view(outcome)) {
            Ok(response) => r matches Ok(kept) && kept@ == response,
            Err(error) => r matches Err(failure) && failure@ == error,
        },
{
    match outcome {
        Err(failure) => Err(RequestError::Transport { detail: failure.detail }),
        Ok(response) => if is_success(response.status) {
            Ok(response)
        } else {
            let kept = snippet(response.body.as_str());
            Err(RequestError::Status { status: response.status, snippet: kept })
        },
    }
}

/// Reads the document out of an outcome: the response, where it has a
/// success status and a JSON body, with that body parsed.
fn accept_document(outcome: Result<Response, TransportFailure>) -> (r: Result<
    (Response, serde_json::Value),
    RequestError,
>)
    ensures
        match accepted(outcome_view(outcome)) {
            Err(error) => r matches Err(failure) && failure@ == error,
            Ok(response) => match document_of(response) {
                Err(error) => r matches Err(failure) && failure@ == error,
                Ok(json) => r matches Ok(read) && read.0@ == response && json_of(read.1) == json,
            },
        },
{
    match accept(outcome) {
        Err(failure) => Err(failure),
        Ok(response) => match parse(response.body.as_str()) {
            None => {
                let kept = snippet(response.body.as_str());
                Err(RequestError::InvalidJson { status: response.status, snippet: kept })
            },
            Some(document) => Ok((response, document)),
        },
    }
}

/// The failure of a response whose document lacks `field`.
fn missing_field(response: &Response, field: Field) -> (failure: RequestError)
    ensures
        failure@ == missing(response@, field),
{
    RequestError::MissingField {
        status: response.status,
        field,
        snippet: snippet(response.body.as_str()),
    }
}

/// Completes the registration-token step from the outcome of its call.
///
/// A response with a success status whose body is a JSON document with the
/// string members `token` and `expires_at` gives the token, both members
/// unchanged. Every other outcome is a failure: no response, a status
/// outside `200..=299`, a body that is not JSON, a document without one of
/// the two members.
pub fn get_jit_runner_token(outcome: Result<Response, TransportFailure>) -> (r: Result<
    JIRToken,
    RequestError,
>)
    ensures
        match jit_runner_token_from(outcome_view(outcome)) {
            Ok(token) => r matches Ok(made) && made@ == token,
            Err(error) => r matches Err(failure) && failure@ == error,
        },
{
    match accept_document(outcome) {
        Err(failure) => Err(failure),
        Ok((response, document)) => match JIRToken::from_document(&document) {
            Ok(token) => Ok(token),
            Err(field) => Err(missing_field(&response, field)),
        },
    }
}

/// Completes the tenant-credential step from the outcome of its call.
///
/// A response with a success status whose body is a JSON document with the
/// string members `token`, `token_schema` and `url` gives the credential.
/// Every other outcome is a failure, as in [`get_jit_runner_token`].
pub fn get_tenant_creds(outcome: Result<Response, TransportFailure>) -> (r: Result<
    RunnerRegistration,
    RequestError,
>)
    ensures
        match tenant_creds_from(outcome_view(outcome)) {
            Ok(registration) => r matches Ok(made) && made@ == registration,
            Err(error) => r matches Err(failure) && failure@ == error,
        },
{
    match accept_document(outcome) {
        Err(failure) => Err(failure),
        Ok((response, document)) => match RunnerRegistration::from_document(&document) {
            Ok(registration) => Ok(registration),
            Err(field) => Err(missing_field(&response, field)),
        },
    }
}

/// Completes a runner-action step from the outcome of its call: the body of
/// a response with a success status, as it came; a failure otherwise.
pub fn runner_action_output(outcome: Result<Response, TransportFailure>) -> (r: Result<
    String,
    RequestError,
>)
    ensures
        match runner_action_output_from(outcome_view(outcome)) {
            Ok(body) => r matches Ok(text) && text@ == body,
            Err(error) => r matches Err(failure) && failure@ == error,
        },
{
    match accept(outcome) {
        Ok(response) => Ok(response.body),
        Err(failure) => Err(failure),
    }
}

/// The registration token is taken as it came: a response with a success
/// status whose body parses to a document with the string members `token` and
/// `expires_at` yields a token with exactly those two texts.
pub proof fn token_is_taken_unchanged(
    response: ResponseView,
    json: Json,
    token: Seq<char>,
    expires_at: Seq<char>,
)
    requires
        status_is_success(response.status),
        parsed(response.body) == Some(json),
        text_member_of(json, "token"@) == Some(token),
        text_member_of(json, "expires_at"@) == Some(expires_at),
    ensures
        jit_runner_token_from(OutcomeView::Answered(response)) == Ok::<
            JIRTokenView,
            RequestErrorView,
        >(JIRTokenView { token, expires_at }),
{
}

/// The credential is taken as it came: a response with a success status whose
/// body parses to a document with the string members `token`, `token_schema`
/// and `url` yields a credential with exactly those three texts.
pub proof fn credential_is_taken_unchanged(
    response: ResponseView,
    json: Json,
    token: Seq<char>,
    token_schema: Seq<char>,
    url: Seq<char>,
)
    requires
        status_is_success(response.status),
        parsed(response.body) == Some(json),
        text_member_of(json, "token"@) == Some(token),
        text_member_of(json, "token_schema"@) == Some(token_schema),
        text_member_of(json, "url"@) == Some(url),
    ensures
        tenant_creds_from(OutcomeView::Answered(response)) == Ok::<
            RunnerRegistrationView,
            RequestErrorView,
        >(RunnerRegistrationView { token, token_schema, url }),
{
}

/// The body of the tenant-credential request does not depend on the token:
/// whatever the token, it holds `url`, the web host joined with the
/// repository, and `runner_event`, the word `register`, and nothing else.
pub proof fn tenant_creds_body_ignores_token(
    config: ConfigView,
    jit_token: Seq<char>,
    other_token: Seq<char>,
    repo_name: Seq<char>,
)
    ensures
        tenant_creds_request_view(config, jit_token, repo_name).body == Some(
            seq![("url"@, config.web_url + "/"@ + repo_name), ("runner_event"@, "register"@)],
        ),
        tenant_creds_request_view(config, jit_token, repo_name).body == tenant_creds_request_view(
            config,
            other_token,
            repo_name,
        ).body,
{
}

/// The tenant-credential request authenticates with the word `RemoteAuth`,
/// one space, and the registration token, character for character.
pub proof fn tenant_creds_authorization_is_remote_auth(
    config: ConfigView,
    jit_token: Seq<char>,
    repo_name: Seq<char>,
)
    ensures
        tenant_creds_request_view(config, jit_token, repo_name).authorization == "RemoteAuth "@
            + jit_token,
        tenant_creds_request_view(config, jit_token, repo_name).authorization.subrange(
            "RemoteAuth "@.len() as int,
            ("RemoteAuth "@.len() + jit_token.len()) as int,
        ) == jit_token,
{
    assert(("RemoteAuth "@ + jit_token).subrange(
        "RemoteAuth "@.len() as int,
        ("RemoteAuth "@.len() + jit_token.len()) as int,
    ) =~= jit_token);
}

/// A response that cannot be read is a protocol error, at either step: where
/// the body is not a JSON document, and where the document lacks a required
/// string member, the step fails, and its failure is of the protocol class.
pub proof fn unreadable_body_is_protocol_error(response: ResponseView)
    ensures
        parsed(response.body) is None || jit_token_in(parsed(response.body)->0) is Err ==> {
            &&& jit_runner_token_from(OutcomeView::Answered(response)) matches Err(error)
            &&& kind_of(error) == ErrorKind::Protocol
        },
        parsed(response.body) is None || registration_in(parsed(response.body)->0) is Err ==> {
            &&& tenant_creds_from(OutcomeView::Answered(response)) matches Err(error)
            &&& kind_of(error) == ErrorKind::Protocol
        },
{
}

/// The class of a failure tells whether a response arrived: a failed step
/// reports a transport error exactly where the call had no response, and a
/// protocol error exactly where it had one.
pub proof fn failure_class_follows_outcome(outcome: OutcomeView)
    ensures
        jit_runner_token_from(outcome) matches Err(error) ==> (kind_of(error)
            == ErrorKind::Transport <==> outcome is Unreachable),
        tenant_creds_from(outcome) matches Err(error) ==> (kind_of(error) == ErrorKind::Transport
            <==> outcome is Unreachable),
        runner_action_output_from(outcome) matches Err(error) ==> (kind_of(error)
            == ErrorKind::Transport <==> outcome is Unreachable),
        outcome is Unreachable ==> jit_runner_token_from(outcome) is Err && tenant_creds_from(
            outcome,
        ) is Err && runner_action_output_from(outcome) is Err,
{
}

/// A status outside `200..=299` fails every step, whatever the body holds,
/// and the failure keeps the status.
pub proof fn rejected_status_fails_every_step(response: ResponseView)
    requires
        !status_is_success(response.status),
    ensures
        jit_runner_token_from(OutcomeView::Answered(response)) == Err::<
            JIRTokenView,
            RequestErrorView,
        >(accepted(OutcomeView::Answered(response))->Err_0),
        tenant_creds_from(OutcomeView::Answered(response)) == Err::<
            RunnerRegistrationView,
            RequestErrorView,
        >(accepted(OutcomeView::Answered(response))->Err_0),
        runner_action_output_from(OutcomeView::Answered(response)) == Err::<
            Seq<char>,
            RequestErrorView,
        >(accepted(OutcomeView::Answered(response))->Err_0),
        accepted(OutcomeView::Answered(response)) == Err::<ResponseView, RequestErrorView>(
            RequestErrorView::Status {
                status: response.status,
                snippet: snippet_of(response.body),
            },
        ),
{
}

} // verus!
