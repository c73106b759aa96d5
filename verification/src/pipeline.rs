//! The credential exchange as a state machine.
//!
//! The machine decides; the caller acts. In each stage [`Pipeline::next_request`]
//! says which call is due, if any, and [`Pipeline::advance`] takes what came of
//! that call and moves on. A failed step ends the run: from `Failed` no call is
//! due and no outcome changes anything.

use crate::config::{Config, ConfigView};
use crate::error::{ConfigurationError, RequestError, RequestErrorView};
use crate::json::{parsed, text_member_of, Json};
use crate::http::{
    outcome_view, status_is_success, OutcomeView, Request, RequestView, Response, ResponseView,
    TransportFailure,
};
use crate::steps::{
    accepted, get_jit_runner_token, get_tenant_creds, jit_runner_token_from,
    jit_runner_token_request, jit_runner_token_request_view, list_runners_request,
    list_runners_request_view, register_runner_request, register_runner_request_view,
    remote_auth, runner_action_output, runner_action_output_from, tenant_creds_from,
    tenant_creds_request, tenant_creds_request_view, token_is_taken_unchanged,
};
use crate::token::{JIRToken, JIRTokenView, RunnerRegistration, RunnerRegistrationView};
use vstd::prelude::*;

verus! {

/// What the pipeline does with the credentials once it has them.
#[derive(Clone, Copy, Debug, PartialEq, Eq, Structural)]
pub enum RunnerAction {
    /// List the repository's runners, under the long-lived credential.
    ListRunners,
    /// Register a runner, under the registration token.
    RegisterRunner,
}

/// How far a run has come.
#[derive(Clone, Debug, PartialEq, Eq)]
pub enum Stage {
    /// Nothing was sent yet.
    Start,
    /// The first step gave the registration token.
    TokenObtained { token: JIRToken },
    /// The second step gave the runner registration credential.
    CredentialObtained { token: JIRToken, registration: RunnerRegistration },
    /// The runner action answered; `output` is its body as it came.
    ActionComplete { registration: RunnerRegistration, output: String },
    /// A step failed. Nothing follows.
    Failed { error: RequestError },
}

/// Mathematical content of a [`Stage`].
pub enum StageView {
    Start,
    TokenObtained { token: JIRTokenView },
    CredentialObtained { token: JIRTokenView, registration: RunnerRegistrationView },
    ActionComplete { registration: RunnerRegistrationView, output: Seq<char> },
    Failed { error: RequestErrorView },
}

impl View for Stage {
    type V = StageView;

    open spec fn view(&self) -> StageView {
        match self {
            Stage::Start => StageView::Start,
            Stage::TokenObtained { token } => StageView::TokenObtained { token: token@ },
            Stage::CredentialObtained { token, registration } => StageView::CredentialObtained {
                token: token@,
                registration: registration@,
            },
            Stage::ActionComplete { registration, output } => StageView::ActionComplete {
                registration: registration@,
                output: output@,
            },
            Stage::Failed { error } => StageView::Failed { error: error@ },
        }
    }
}

/// One run of the exchange: what it was started with, and its stage.
#[derive(Clone, Debug, PartialEq, Eq)]
pub struct Pipeline {
    pub config: Config,
    /// The long-lived credential.
    pub credential: String,
    /// The repository, as `owner/name`.
    pub repository: String,
    /// The runner action to end with; `None` ends the run with the
    /// credential of the second step.
    pub action: Option<RunnerAction>,
    pub stage: Stage,
}

/// Mathematical content of a [`Pipeline`].
pub struct PipelineView {
    pub config: ConfigView,
    pub credential: Seq<char>,
    pub repository: Seq<char>,
    pub action: Option<RunnerAction>,
    pub stage: StageView,
}

impl View for Pipeline {
    type V = PipelineView;

    open spec fn view(&self) -> PipelineView {
        PipelineView {
            config: self.config@,
            credential: self.credential@,
            repository: self.repository@,
            action: self.action,
            stage: self.stage@,
        }
    }
}

/// The call that is due in a stage; `None` where the run is over.
pub open spec fn pending_request(pipeline: PipelineView) -> Option<RequestView> {
    match pipeline.stage {
        StageView::Start => Some(
            jit_runner_token_request_view(
                pipeline.config,
                pipeline.credential,
                pipeline.repository,
            ),
        ),
        StageView::TokenObtained { token } => Some(
            tenant_creds_request_view(pipeline.config, token.token, pipeline.repository),
        ),
        StageView::CredentialObtained { token, .. } => match pipeline.action {
            None => None,
            Some(RunnerAction::ListRunners) => Some(
                list_runners_request_view(
                    pipeline.config,
                    pipeline.credential,
                    pipeline.repository,
                ),
            ),
            Some(RunnerAction::RegisterRunner) => Some(
                register_runner_request_view(pipeline.config, token.token, pipeline.repository),
            ),
        },
        StageView::ActionComplete { .. } => None,
        StageView::Failed { .. } => None,
    }
}

/// The stage that follows when the due call ends in `outcome`. Where no call
/// is due the stage stays as it is.
pub open spec fn advanced_stage(pipeline: PipelineView, outcome: OutcomeView) -> StageView {
    match pipeline.stage {
        StageView::Start => match jit_runner_token_from(outcome) {
            Ok(token) => StageView::TokenObtained { token },
            Err(error) => StageView::Failed { error },
        },
        StageView::TokenObtained { token } => match tenant_creds_from(outcome) {
            Ok(registration) => StageView::CredentialObtained { token, registration },
            Err(error) => StageView::Failed { error },
        },
        StageView::CredentialObtained { token, registration } => match pipeline.action {
            None => pipeline.stage,
            Some(_) => match runner_action_output_from(outcome) {
                Ok(output) => StageView::ActionComplete { registration, output },
                Err(error) => StageView::Failed { error },
            },
        },
        StageView::ActionComplete { .. } => pipeline.stage,
        StageView::Failed { .. } => pipeline.stage,
    }
}

/// The run after the due call ended in `outcome`: same inputs, next stage.
pub open spec fn advanced(pipeline: PipelineView, outcome: OutcomeView) -> PipelineView {
    PipelineView { stage: advanced_stage(pipeline, outcome), ..pipeline }
}

/// The number of calls a run still makes if every one of them succeeds.
pub open spec fn calls_left(pipeline: PipelineView) -> nat {
    let last: nat = if pipeline.action is Some {
        1
    } else {
        0
    };
    match pipeline.stage {
        StageView::Start => 2 + last,
        StageView::TokenObtained { .. } => 1 + last,
        StageView::CredentialObtained { .. } => last,
        StageView::ActionComplete { .. } => 0,
        StageView::Failed { .. } => 0,
    }
}

/// The calls of a run that starts from `pipeline` and whose calls end in
/// `outcomes`, in that order. The driver asks which call is due, makes it,
/// hands back what came of it, and asks again; it stops where no call is due
/// and where the outcomes are used up.
pub open spec fn calls_made(pipeline: PipelineView, outcomes: Seq<OutcomeView>) -> Seq<
    RequestView,
>
    decreases outcomes.len(),
{
    if outcomes.len() == 0 {
        Seq::empty()
    } else {
        match pending_request(pipeline) {
            None => Seq::empty(),
            Some(request) => seq![request] + calls_made(
                advanced(pipeline, outcomes[0]),
                outcomes.drop_first(),
            ),
        }
    }
}

/// Whether a call with this outcome fails its step whatever the step is: no
/// response, or a response with a status outside `200..=299`.
pub open spec fn is_rejected(outcome: OutcomeView) -> bool {
    match outcome {
        OutcomeView::Unreachable(_) => true,
        OutcomeView::Answered(response) => !status_is_success(response.status),
    }
}

impl Pipeline {
    /// A run at its start.
    pub fn new(
        config: Config,
        credential: String,
        repository: String,
        action: Option<RunnerAction>,
    ) -> (pipeline: Pipeline)
        ensures
            pipeline@ == (PipelineView {
                config: config@,
                credential: credential@,
                repository: repository@,
                action,
                stage: StageView::Start,
            }),
    {
        Pipeline { config, credential, repository, action, stage: Stage::Start }
    }

    /// A run at its start, from a credential that may be absent, as one read
    /// from the environment is. Without the credential there is no run, and
    /// so no call.
    pub fn configure(
        config: Config,
        credential: Option<String>,
        repository: String,
        action: Option<RunnerAction>,
    ) -> (r: Result<Pipeline, ConfigurationError>)
        ensures
            match credential {
                Some(secret) => r matches Ok(pipeline) && pipeline@ == (PipelineView {
                    config: config@,
                    credential: secret@,
                    repository: repository@,
                    action,
                    stage: StageView::Start,
                }),
                None => r == Err::<Pipeline, ConfigurationError>(
                    ConfigurationError::MissingCredential,
                ),
            },
    {
        match credential {
            Some(secret) => Ok(Pipeline::new(config, secret, repository, action)),
            None => Err(ConfigurationError::MissingCredential),
        }
    }

    /// The call to make now, or `None` where the run is over: after the last
    /// step, and after a failure.
    pub fn next_request(&self) -> (request: Option<Request>)
        ensures
            match pending_request(self@) {
                Some(due) => request matches Some(made) && made@ == due,
                None => request is None,
            },
    {
        match &self.stage {
            Stage::Start => Some(
                jit_runner_token_request(
                    &self.config,
                    self.credential.as_str(),
                    self.repository.as_str(),
                ),
            ),
            Stage::TokenObtained { token } => Some(
                tenant_creds_request(&self.config, token.token.as_str(), self.repository.as_str()),
            ),
            Stage::CredentialObtained { token, .. } => match self.action {
                None => None,
                Some(RunnerAction::ListRunners) => Some(
                    list_runners_request(
                        &self.config,
                        self.credential.as_str(),
                        self.repository.as_str(),
                    ),
                ),
                Some(RunnerAction::RegisterRunner) => Some(
                    register_runner_request(
                        &self.config,
                        token.token.as_str(),
                        self.repository.as_str(),
                    ),
                ),
            },
            Stage::ActionComplete { .. } => None,
            Stage::Failed { .. } => None,
        }
    }

    /// Takes the outcome of the call that [`Pipeline::next_request`] named
    /// and moves to the next stage: onward where the step succeeded, to
    /// `Failed` with the step's error where it did not. Where no call was
    /// due, the outcome is dropped and the run stays as it is.
    pub fn advance(self, outcome: Result<Response, TransportFailure>) -> (next: Pipeline)
        ensures
            next@ == advanced(self@, outcome_view(outcome)),
    {
        let Pipeline { config, credential, repository, action, stage } = self;
        let stage = match stage {
            Stage::Start => match get_jit_runner_token(outcome) {
                Ok(token) => Stage::TokenObtained { token },
                Err(error) => Stage::Failed { error },
            },
            Stage::TokenObtained { token } => match get_tenant_creds(outcome) {
                Ok(registration) => Stage::CredentialObtained { token, registration },
                Err(error) => Stage::Failed { error },
            },
            Stage::CredentialObtained { token, registration } => match action {
                None => Stage::CredentialObtained { token, registration },
                Some(_) => match runner_action_output(outcome) {
                    Ok(output) => Stage::ActionComplete { registration, output },
                    Err(error) => Stage::Failed { error },
                },
            },
            Stage::ActionComplete { registration, output } => Stage::ActionComplete {
                registration,
                output,
            },
            Stage::Failed { error } => Stage::Failed { error },
        };
        Pipeline { config, credential, repository, action, stage }
    }

    /// Whether the run is over, in success or in failure.
    pub fn is_finished(&self) -> (finished: bool)
        ensures
            finished == (pending_request(self@) is None),
    {
        match &self.stage {
            Stage::Start => false,
            Stage::TokenObtained { .. } => false,
            Stage::CredentialObtained { .. } => self.action.is_none(),
            Stage::ActionComplete { .. } => true,
            Stage::Failed { .. } => true,
        }
    }

    /// The runner registration credential, once the second step gave it.
    pub fn registration(&self) -> (found: Option<&RunnerRegistration>)
        ensures
            match self@.stage {
                StageView::CredentialObtained { registration, .. } => found matches Some(r)
                    && r@ == registration,
                StageView::ActionComplete { registration, .. } => found matches Some(r) && r@
                    == registration,
                _ => found is None,
            },
    {
        match &self.stage {
            Stage::CredentialObtained { registration, .. } => Some(registration),
            Stage::ActionComplete { registration, .. } => Some(registration),
            _ => None,
        }
    }

    /// The error of the step that failed, where one did.
    pub fn failure(&self) -> (found: Option<&RequestError>)
        ensures
            match self@.stage {
                StageView::Failed { error } => found matches Some(e) && e@ == error,
                _ => found is None,
            },
    {
        match &self.stage {
            Stage::Failed { error } => Some(error),
            _ => None,
        }
    }
}

/// Failure is final: in `Failed` no call is due, and no outcome moves the
/// run out of it or changes the error it holds.
pub proof fn failure_is_final(pipeline: PipelineView, outcome: OutcomeView)
    requires
        pipeline.stage is Failed,
    ensures
        pending_request(pipeline) is None,
        advanced(pipeline, outcome) == pipeline,
{
}

/// A failed step ends the run: whenever a call was due and the stage that
/// follows its outcome is `Failed`, no further call is due, so the steps
/// after the failed one are never asked for.
pub proof fn failed_step_ends_run(pipeline: PipelineView, outcome: OutcomeView)
    requires
        advanced(pipeline, outcome).stage is Failed,
    ensures
        pending_request(advanced(pipeline, outcome)) is None,
        calls_left(advanced(pipeline, outcome)) == 0,
{
}

/// A response with a status outside `200..=299` to any due call fails the
/// run: the next stage is `Failed`, with the status kept, and no call
/// follows.
pub proof fn rejected_status_ends_run(pipeline: PipelineView, response: ResponseView)
    requires
        pending_request(pipeline) is Some,
        !status_is_success(response.status),
    ensures
        advanced(pipeline, OutcomeView::Answered(response)).stage == (StageView::Failed {
            error: accepted(OutcomeView::Answered(response))->Err_0,
        }),
        accepted(OutcomeView::Answered(response))->Err_0 matches RequestErrorView::Status {
            status,
            ..
        } && status == response.status,
        pending_request(advanced(pipeline, OutcomeView::Answered(response))) is None,
{
}

/// A call that never got a response fails the run in the same way.
pub proof fn transport_failure_ends_run(pipeline: PipelineView, detail: Seq<char>)
    requires
        pending_request(pipeline) is Some,
    ensures
        advanced(pipeline, OutcomeView::Unreachable(detail)).stage == (StageView::Failed {
            error: RequestErrorView::Transport { detail },
        }),
        pending_request(advanced(pipeline, OutcomeView::Unreachable(detail))) is None,
{
}

/// The error of a failed step reaches the caller as the step gave it.
pub proof fn step_error_is_kept(pipeline: PipelineView, outcome: OutcomeView)
    requires
        pending_request(pipeline) is Some,
    ensures
        pipeline.stage is Start ==> (jit_runner_token_from(outcome) matches Err(error)
            ==> advanced(pipeline, outcome).stage == StageView::Failed { error }),
        pipeline.stage is TokenObtained ==> (tenant_creds_from(outcome) matches Err(error)
            ==> advanced(pipeline, outcome).stage == StageView::Failed { error }),
        pipeline.stage is CredentialObtained ==> (runner_action_output_from(outcome) matches Err(
            error,
        ) ==> advanced(pipeline, outcome).stage == StageView::Failed { error }),
{
}

/// A run only moves forward: a call is due exactly while calls are left,
/// every outcome of a due call lowers the number left, and a run makes three
/// calls at most, two without a runner action.
pub proof fn run_moves_forward(pipeline: PipelineView, outcome: OutcomeView)
    ensures
        pending_request(pipeline) is Some <==> calls_left(pipeline) > 0,
        calls_left(pipeline) <= 3,
        pipeline.action is None ==> calls_left(pipeline) <= 2,
        pending_request(pipeline) is Some ==> calls_left(advanced(pipeline, outcome)) < calls_left(
            pipeline,
        ),
        pending_request(pipeline) is None ==> advanced(pipeline, outcome) == pipeline,
{
}

/// The first step hands the token on as it came, whatever the credential and
/// the repository: from `Start`, a response with a success status whose body
/// parses to a document with the string members `token` and `expires_at`
/// leads to `TokenObtained` with exactly those two texts.
pub proof fn first_step_keeps_token(
    pipeline: PipelineView,
    response: ResponseView,
    json: Json,
    token: Seq<char>,
    expires_at: Seq<char>,
)
    requires
        pipeline.stage is Start,
        status_is_success(response.status),
        parsed(response.body) == Some(json),
        text_member_of(json, "token"@) == Some(token),
        text_member_of(json, "expires_at"@) == Some(expires_at),
    ensures
        advanced(pipeline, OutcomeView::Answered(response)).stage == (StageView::TokenObtained {
            token: JIRTokenView { token, expires_at },
        }),
{
    token_is_taken_unchanged(response, json, token, expires_at);
}

/// The second step never sees the long-lived credential: the call due in
/// `TokenObtained` authenticates with `RemoteAuth` and the registration
/// token, and is the same call whatever the credential of the run is.
pub proof fn second_step_hides_credential(pipeline: PipelineView, other_credential: Seq<char>)
    requires
        pipeline.stage is TokenObtained,
    ensures
        pending_request(pipeline) matches Some(request) && request.authorization == remote_auth(
            pipeline.stage->TokenObtained_token.token,
        ),
        pending_request(pipeline) == pending_request(
            PipelineView { credential: other_credential, ..pipeline },
        ),
{
}

/// No call follows a rejected one: where the call at position `at` of a run
/// gets no response, or one with a status outside `200..=299`, the run makes
/// no call after it.
pub proof fn no_call_follows_rejection(
    pipeline: PipelineView,
    outcomes: Seq<OutcomeView>,
    at: int,
)
    requires
        0 <= at < outcomes.len(),
        is_rejected(outcomes[at]),
    ensures
        calls_made(pipeline, outcomes).len() <= at + 1,
    decreases at,
{
    if pending_request(pipeline) is Some {
        let next = advanced(pipeline, outcomes[0]);
        let rest = outcomes.drop_first();
        if at == 0 {
            assert(next.stage is Failed);
            assert(calls_made(next, rest).len() == 0);
        } else {
            assert(rest[at - 1] == outcomes[at]);
            no_call_follows_rejection(next, rest, at - 1);
        }
    }
}

/// A run makes no more calls than are left to it, three at most, however
/// many outcomes the driver has at hand.
pub proof fn calls_made_are_bounded(pipeline: PipelineView, outcomes: Seq<OutcomeView>)
    ensures
        calls_made(pipeline, outcomes).len() <= calls_left(pipeline),
        calls_made(pipeline, outcomes).len() <= outcomes.len(),
        calls_made(pipeline, outcomes).len() <= 3,
    decreases outcomes.len(),
{
    if outcomes.len() > 0 && pending_request(pipeline) is Some {
        calls_made_are_bounded(advanced(pipeline, outcomes[0]), outcomes.drop_first());
    }
}

} // verus!
