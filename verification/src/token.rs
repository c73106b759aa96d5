//! The two secrets the exchange produces, and how each is read out of a JSON
//! document.

use crate::error::Field;
use crate::json::{json_of, string_member, text_member_of, Json};
use vstd::prelude::*;

verus! {

/// The short-lived registration token of the first step.
///
/// `expires_at` is carried as the platform wrote it. Nothing here compares it
/// with a clock: using the token in time is left to the caller.
#[derive(Clone, Debug, PartialEq, Eq)]
pub struct JIRToken {
    pub token: String,
    pub expires_at: String,
}

/// Mathematical content of a [`JIRToken`].
pub struct JIRTokenView {
    pub token: Seq<char>,
    pub expires_at: Seq<char>,
}

impl View for JIRToken {
    type V = JIRTokenView;

    open spec fn view(&self) -> JIRTokenView {
        JIRTokenView { token: self.token@, expires_at: self.expires_at@ }
    }
}

/// The runner registration credential of the second step. `url` names the
/// tenant endpoint and is passed through as it came.
#[derive(Clone, Debug, PartialEq, Eq)]
pub struct RunnerRegistration {
    pub token: String,
    pub token_schema: String,
    pub url: String,
}

/// Mathematical content of a [`RunnerRegistration`].
pub struct RunnerRegistrationView {
    pub token: Seq<char>,
    pub token_schema: Seq<char>,
    pub url: Seq<char>,
}

impl View for RunnerRegistration {
    type V = RunnerRegistrationView;

    open spec fn view(&self) -> RunnerRegistrationView {
        RunnerRegistrationView {
            token: self.token@,
            token_schema: self.token_schema@,
            url: self.url@,
        }
    }
}

/// A registration token from its two members, or the first one missing.
pub open spec fn jit_token_of(token: Option<Seq<char>>, expires_at: Option<Seq<char>>) -> Result<
    JIRTokenView,
    Field,
> {
    match (token, expires_at) {
        (Some(token), Some(expires_at)) => Ok(JIRTokenView { token, expires_at }),
        (None, _) => Err(Field::Token),
        (Some(_), None) => Err(Field::ExpiresAt),
    }
}

/// The registration token that a JSON document holds: its string members
/// `token` and `expires_at`, whatever else stands beside them.
pub open spec fn jit_token_in(json: Json) -> Result<JIRTokenView, Field> {
    jit_token_of(text_member_of(json, "token"@), text_member_of(json, "expires_at"@))
}

/// A registration credential from its three members, or the first one missing.
pub open spec fn registration_of(
    token: Option<Seq<char>>,
    token_schema: Option<Seq<char>>,
    url: Option<Seq<char>>,
) -> Result<RunnerRegistrationView, Field> {
    match (token, token_schema, url) {
        (Some(token), Some(token_schema), Some(url)) => Ok(
            RunnerRegistrationView { token, token_schema, url },
        ),
        (None, _, _) => Err(Field::Token),
        (Some(_), None, _) => Err(Field::TokenSchema),
        (Some(_), Some(_), None) => Err(Field::Url),
    }
}

/// The registration credential that a JSON document holds: its string members
/// `token`, `token_schema` and `url`.
pub open spec fn registration_in(json: Json) -> Result<RunnerRegistrationView, Field> {
    registration_of(
        text_member_of(json, "token"@),
        text_member_of(json, "token_schema"@),
        text_member_of(json, "url"@),
    )
}

impl JIRToken {
    /// Puts a token together from the members read out of a document. A
    /// member that was not found is reported, `token` before `expires_at`.
    pub fn from_members(token: Option<String>, expires_at: Option<String>) -> (r: Result<
        JIRToken,
        Field,
    >)
        ensures
            match jit_token_of(token.deep_view(), expires_at.deep_view()) {
                Ok(view) => r matches Ok(made) && made@ == view,
                Err(field) => r == Err::<JIRToken, Field>(field),
            },
    {
        match token {
            None => Err(Field::Token),
            Some(token) => match expires_at {
                None => Err(Field::ExpiresAt),
                Some(expires_at) => Ok(JIRToken { token, expires_at }),
            },
        }
    }

    /// Reads a token out of a parsed document.
    pub fn from_document(document: &serde_json::Value) -> (r: Result<JIRToken, Field>)
        ensures
            match jit_token_in(json_of(*document)) {
                Ok(view) => r matches Ok(made) && made@ == view,
                Err(field) => r == Err::<JIRToken, Field>(field),
            },
    {
        let token = string_member(document, "token");
        let expires_at = string_member(document, "expires_at");
        JIRToken::from_members(token, expires_at)
    }
}

impl RunnerRegistration {
    /// Puts a credential together from the members read out of a document. A
    /// member that was not found is reported, in the order `token`,
    /// `token_schema`, `url`.
    pub fn from_members(
        token: Option<String>,
        token_schema: Option<String>,
        url: Option<String>,
    ) -> (r: Result<RunnerRegistration, Field>)
        ensures
            match registration_of(token.deep_view(), token_schema.deep_view(), url.deep_view()) {
                Ok(view) => r matches Ok(made) && made@ == view,
                Err(field) => r == Err::<RunnerRegistration, Field>(field),
            },
    {
        match token {
            None => Err(Field::Token),
            Some(token) => match token_schema {
                None => Err(Field::TokenSchema),
                Some(token_schema) => match url {
                    None => Err(Field::Url),
                    Some(url) => Ok(RunnerRegistration { token, token_schema, url }),
                },
            },
        }
    }

    /// Reads a credential out of a parsed document.
    pub fn from_document(document: &serde_json::Value) -> (r: Result<RunnerRegistration, Field>)
        ensures
            match registration_in(json_of(*document)) {
                Ok(view) => r matches Ok(made) && made@ == view,
                Err(field) => r == Err::<RunnerRegistration, Field>(field),
            },
    {
        let token = string_member(document, "token");
        let token_schema = string_member(document, "token_schema");
        let url = string_member(document, "url");
        RunnerRegistration::from_members(token, token_schema, url)
    }
}

} // verus!
