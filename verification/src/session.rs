//! The user-facing commands as step machines.  Each machine says what to do
//! next (read or write a credential, send a request, or finish with an
//! answer); the caller does it and hands the outcome back as an event.
use vstd::prelude::*;
use vstd::string::StringExecFns;

use crate::api::{
    api_failure_text, refresh_body, refresh_path, refresh_request, resource_path, resource_request,
    login_body, login_path, login_request, ApiError, ApiFailure, LoginResponse, Request, RequestView,
    Resource,
};
use crate::auth::{
    auth_failure_text, handed_out, refresh_update, AuthError, AuthFailure, RefreshTokenUpdate,
    RefreshUpdateView,
};
use crate::text::{normalize_base_url, normalized_base_url, strip_bearer, without_bearer};

verus! {

/// What a command can fail with.
#[derive(Debug, PartialEq, Eq)]
pub enum CommandError {
    Api(ApiError),
    Auth(AuthError),
    NotLoggedIn,
}

/// `CommandError` with its texts as character sequences.
pub enum CommandFailure {
    Api(ApiFailure),
    Auth(AuthFailure),
    NotLoggedIn,
}

impl View for CommandError {
    type V = CommandFailure;

    open spec fn view(&self) -> CommandFailure {
        match self {
            CommandError::Api(e) => CommandFailure::Api(e@),
            CommandError::Auth(e) => CommandFailure::Auth(e@),
            CommandError::NotLoggedIn => CommandFailure::NotLoggedIn,
        }
    }
}

/// The text a command failure is reported with.
pub open spec fn command_failure_text(f: CommandFailure) -> Seq<char> {
    match f {
        CommandFailure::Api(e) => api_failure_text(e),
        CommandFailure::Auth(e) => "auth: "@ + auth_failure_text(e),
        CommandFailure::NotLoggedIn => "not logged in"@,
    }
}

impl CommandError {
    /// The text this failure is reported with.
    pub fn message(&self) -> (r: String)
        ensures
            r@ == command_failure_text(self@),
    {
        match self {
            CommandError::Api(e) => e.message(),
            CommandError::Auth(e) => {
                let mut r = String::from_str("auth: ");
                let m = e.message();
                r.append(m.as_str());
                r
            },
            CommandError::NotLoggedIn => String::from_str("not logged in"),
        }
    }
}

/// A command's answer with its failure as a `CommandFailure`.
pub open spec fn answer_view<T>(r: Result<T, CommandError>) -> Result<T, CommandFailure> {
    match r {
        Ok(v) => Ok(v),
        Err(e) => Err(e@),
    }
}

/// Whether someone is logged in, judged by reading the access token: a
/// token is stored (whether it is still valid shows on the next fetch).
pub fn logged_in(access_token: &Result<String, AuthError>) -> (b: bool)
    ensures
        b == access_token is Ok,
{
    match access_token {
        Ok(_) => true,
        Err(_) => false,
    }
}

/// The answer of the logout command, given how clearing the stored
/// credentials went.
pub fn logout_answer(cleared: Result<(), AuthError>) -> (r: Result<bool, CommandError>)
    ensures
        match cleared {
            Ok(()) => r == Ok::<bool, CommandError>(true),
            Err(e) => r == Err::<bool, CommandError>(CommandError::Auth(e)),
        },
{
    match cleared {
        Ok(()) => Ok(true),
        Err(e) => Err(CommandError::Auth(e)),
    }
}

// ---------------------------------------------------------------------------
// Fetching a resource, with one token refresh on 401
// ---------------------------------------------------------------------------

/// Where a fetch stands.
#[derive(Debug)]
pub enum FetchStage {
    /// Waiting for the stored access token.
    ReadingAccessToken,
    /// Waiting for the stored base URL.
    ReadingBaseUrl { access_token: String },
    /// Waiting for the reply to the resource request; `after_refresh` tells
    /// whether the access token has already been refreshed.
    Fetching { base_url: String, after_refresh: bool },
    /// Waiting for the stored refresh token.
    ReadingRefreshToken { base_url: String },
    /// Waiting for the reply to the refresh request.
    Refreshing { base_url: String },
    /// Waiting for the refreshed tokens to be stored.
    StoringTokens { base_url: String, access_token: String },
    /// The command has its answer.
    Finished,
}

/// `FetchStage` with its texts as character sequences.
pub enum FetchStageView {
    ReadingAccessToken,
    ReadingBaseUrl { access_token: Seq<char> },
    Fetching { base_url: Seq<char>, after_refresh: bool },
    ReadingRefreshToken { base_url: Seq<char> },
    Refreshing { base_url: Seq<char> },
    StoringTokens { base_url: Seq<char>, access_token: Seq<char> },
    Finished,
}

impl View for FetchStage {
    type V = FetchStageView;

    open spec fn view(&self) -> FetchStageView {
        match self {
            FetchStage::ReadingAccessToken => FetchStageView::ReadingAccessToken,
            FetchStage::ReadingBaseUrl { access_token } => FetchStageView::ReadingBaseUrl {
                access_token: access_token@,
            },
            FetchStage::Fetching { base_url, after_refresh } => FetchStageView::Fetching {
                base_url: base_url@,
                after_refresh: *after_refresh,
            },
            FetchStage::ReadingRefreshToken { base_url } => FetchStageView::ReadingRefreshToken {
                base_url: base_url@,
            },
            FetchStage::Refreshing { base_url } => FetchStageView::Refreshing {
                base_url: base_url@,
            },
            FetchStage::StoringTokens { base_url, access_token } => FetchStageView::StoringTokens {
                base_url: base_url@,
                access_token: access_token@,
            },
            FetchStage::Finished => FetchStageView::Finished,
        }
    }
}

/// A fetch command in progress: the resource it fetches, whether it may
/// refresh the access token on a 401, and where it stands.
#[derive(Debug)]
pub struct FetchFlow {
    pub resource: Resource,
    pub may_refresh: bool,
    pub stage: FetchStage,
}

pub struct FetchFlowView {
    pub resource: Resource,
    pub may_refresh: bool,
    pub stage: FetchStageView,
}

impl View for FetchFlow {
    type V = FetchFlowView;

    open spec fn view(&self) -> FetchFlowView {
        FetchFlowView { resource: self.resource, may_refresh: self.may_refresh, stage: self.stage@ }
    }
}

/// What the caller is to do next for a fetch.
#[derive(Debug)]
pub enum FetchStep<T> {
    ReadAccessToken,
    ReadBaseUrl,
    /// Send the resource request and report its outcome.
    Send(Request),
    ReadRefreshToken,
    /// Send the refresh request and report its outcome.
    Refresh(Request),
    /// Store the access token and update the stored refresh token as said.
    StoreTokens { access_token: String, refresh_token: RefreshTokenUpdate },
    /// The command's answer.
    Finish(Result<T, CommandError>),
}

/// `FetchStep` with its texts as character sequences.
pub enum FetchStepView<T> {
    ReadAccessToken,
    ReadBaseUrl,
    Send(RequestView),
    ReadRefreshToken,
    Refresh(RequestView),
    StoreTokens { access_token: Seq<char>, refresh_token: RefreshUpdateView },
    Finish(Result<T, CommandFailure>),
}

impl<T> View for FetchStep<T> {
    type V = FetchStepView<T>;

    open spec fn view(&self) -> FetchStepView<T> {
        match self {
            FetchStep::ReadAccessToken => FetchStepView::ReadAccessToken,
            FetchStep::ReadBaseUrl => FetchStepView::ReadBaseUrl,
            FetchStep::Send(r) => FetchStepView::Send(r@),
            FetchStep::ReadRefreshToken => FetchStepView::ReadRefreshToken,
            FetchStep::Refresh(r) => FetchStepView::Refresh(r@),
            FetchStep::StoreTokens { access_token, refresh_token } => FetchStepView::StoreTokens {
                access_token: access_token@,
                refresh_token: refresh_token@,
            },
            FetchStep::Finish(r) => FetchStepView::Finish(answer_view(*r)),
        }
    }
}

/// What the caller reports back after a fetch step.
#[derive(Debug)]
pub enum FetchEvent<T> {
    /// The access token as the credential store gave it.
    AccessToken(Result<String, AuthError>),
    /// The base URL in use.
    BaseUrl(String),
    /// The outcome of the resource request.
    Fetched(Result<T, ApiError>),
    /// The stored refresh token, if one could be read.
    RefreshToken(Option<String>),
    /// The outcome of the refresh request.
    Refreshed(Result<LoginResponse, ApiError>),
    /// How storing the refreshed tokens went.
    TokensStored(Result<(), AuthError>),
}

/// Whether a fetch standing at `stage` waits for `event`.
pub open spec fn fetch_accepts<T>(stage: FetchStageView, event: FetchEvent<T>) -> bool {
    match stage {
        FetchStageView::ReadingAccessToken => event is AccessToken,
        FetchStageView::ReadingBaseUrl { .. } => event is BaseUrl,
        FetchStageView::Fetching { .. } => event is Fetched,
        FetchStageView::ReadingRefreshToken { .. } => event is RefreshToken,
        FetchStageView::Refreshing { .. } => event is Refreshed,
        FetchStageView::StoringTokens { .. } => event is TokensStored,
        FetchStageView::Finished => false,
    }
}

/// The request for the flow's resource at `base_url` with `token`.
pub open spec fn fetch_request(flow: FetchFlowView, base_url: Seq<char>, token: Seq<char>) -> RequestView {
    RequestView::GetWithBearer { url: base_url + resource_path(flow.resource), token }
}

/// A flow at a new stage.
pub open spec fn at_stage(flow: FetchFlowView, stage: FetchStageView) -> FetchFlowView {
    FetchFlowView { stage, ..flow }
}

/// A finished flow with its answer.
pub open spec fn fetch_finish<T>(flow: FetchFlowView, answer: Result<T, CommandFailure>) -> (FetchFlowView, FetchStepView<T>) {
    (at_stage(flow, FetchStageView::Finished), FetchStepView::Finish(answer))
}

/// One move of a fetch: the flow after `event`, and the next step.
/// A missing access token means nobody is logged in.  A 401 on the first
/// request (where refreshing is allowed) leads to reading the refresh token;
/// without one nobody is logged in, with one it is sent to the refresh
/// endpoint, the new tokens are stored, and the resource is requested again
/// with the new access token.  Every other API failure is the answer.
pub open spec fn fetch_next<T>(flow: FetchFlowView, event: FetchEvent<T>) -> (FetchFlowView, FetchStepView<T>) {
    match (flow.stage, event) {
        (FetchStageView::ReadingAccessToken, FetchEvent::AccessToken(Ok(t))) => (
            at_stage(flow, FetchStageView::ReadingBaseUrl { access_token: t@ }),
            FetchStepView::ReadBaseUrl,
        ),
        (FetchStageView::ReadingAccessToken, FetchEvent::AccessToken(Err(_))) => fetch_finish(
            flow,
            Err(CommandFailure::NotLoggedIn),
        ),
        (FetchStageView::ReadingBaseUrl { access_token }, FetchEvent::BaseUrl(b)) => (
            at_stage(flow, FetchStageView::Fetching { base_url: b@, after_refresh: false }),
            FetchStepView::Send(fetch_request(flow, b@, access_token)),
        ),
        (FetchStageView::Fetching { base_url, after_refresh }, FetchEvent::Fetched(Ok(v))) => fetch_finish(
            flow,
            Ok(v),
        ),
        (FetchStageView::Fetching { base_url, after_refresh }, FetchEvent::Fetched(Err(e))) => {
            if e is Unauthorized && flow.may_refresh && !after_refresh {
                (
                    at_stage(flow, FetchStageView::ReadingRefreshToken { base_url }),
                    FetchStepView::ReadRefreshToken,
                )
            } else {
                fetch_finish(flow, Err(CommandFailure::Api(e@)))
            }
        },
        (FetchStageView::ReadingRefreshToken { base_url }, FetchEvent::RefreshToken(None)) => fetch_finish(
            flow,
            Err(CommandFailure::NotLoggedIn),
        ),
        (FetchStageView::ReadingRefreshToken { base_url }, FetchEvent::RefreshToken(Some(r))) => (
            at_stage(flow, FetchStageView::Refreshing { base_url }),
            FetchStepView::Refresh(
                RequestView::PostJson { url: base_url + refresh_path(), body: refresh_body(r@) },
            ),
        ),
        (FetchStageView::Refreshing { base_url }, FetchEvent::Refreshed(Err(e))) => fetch_finish(
            flow,
            Err(CommandFailure::Api(e@)),
        ),
        (FetchStageView::Refreshing { base_url }, FetchEvent::Refreshed(Ok(resp))) => (
            at_stage(
                flow,
                FetchStageView::StoringTokens { base_url, access_token: resp.access_token@ },
            ),
            FetchStepView::StoreTokens {
                access_token: resp.access_token@,
                refresh_token: handed_out(resp.refresh_token),
            },
        ),
        (
            FetchStageView::StoringTokens { base_url, access_token },
            FetchEvent::TokensStored(Err(e)),
        ) => fetch_finish(flow, Err(CommandFailure::Auth(e@))),
        (
            FetchStageView::StoringTokens { base_url, access_token },
            FetchEvent::TokensStored(Ok(())),
        ) => (
            at_stage(flow, FetchStageView::Fetching { base_url, after_refresh: true }),
            FetchStepView::Send(fetch_request(flow, base_url, access_token)),
        ),
        _ => (flow, FetchStepView::ReadAccessToken),
    }
}

/// Whether the command that fetches `resource` refreshes the access token
/// once on a 401: the dashboard statistics and the subscriptions do, the
/// user info does not.
pub open spec fn refreshes_on_401(resource: Resource) -> bool {
    resource != Resource::UserInfo
}

impl FetchFlow {
    /// Starts the command that fetches `resource`, with the refresh
    /// permission that belongs to it.
    pub fn for_command<T>(resource: Resource) -> (r: (FetchFlow, FetchStep<T>))
        ensures
            r.0@ == (FetchFlowView {
                resource,
                may_refresh: refreshes_on_401(resource),
                stage: FetchStageView::ReadingAccessToken,
            }),
            r.1@ == FetchStepView::<T>::ReadAccessToken,
    {
        let may_refresh = match resource {
            Resource::UserInfo => false,
            _ => true,
        };
        FetchFlow::start(resource, may_refresh)
    }

    /// Starts a fetch of `resource`; `may_refresh` allows one token
    /// refresh on a 401.  The first step reads the access token.
    pub fn start<T>(resource: Resource, may_refresh: bool) -> (r: (FetchFlow, FetchStep<T>))
        ensures
            r.0@ == (FetchFlowView {
                resource,
                may_refresh,
                stage: FetchStageView::ReadingAccessToken,
            }),
            r.1@ == FetchStepView::<T>::ReadAccessToken,
    {
        (FetchFlow { resource, may_refresh, stage: FetchStage::ReadingAccessToken }, FetchStep::ReadAccessToken)
    }

    /// Whether this flow waits for `event`.
    pub fn accepts<T>(&self, event: &FetchEvent<T>) -> (b: bool)
        ensures
            b == fetch_accepts(self@.stage, *event),
    {
        match (&self.stage, event) {
            (FetchStage::ReadingAccessToken, FetchEvent::AccessToken(_)) => true,
            (FetchStage::ReadingBaseUrl { .. }, FetchEvent::BaseUrl(_)) => true,
            (FetchStage::Fetching { .. }, FetchEvent::Fetched(_)) => true,
            (FetchStage::ReadingRefreshToken { .. }, FetchEvent::RefreshToken(_)) => true,
            (FetchStage::Refreshing { .. }, FetchEvent::Refreshed(_)) => true,
            (FetchStage::StoringTokens { .. }, FetchEvent::TokensStored(_)) => true,
            _ => false,
        }
    }

    /// Takes the outcome of the last step and gives the next one.
    pub fn step<T>(self, event: FetchEvent<T>) -> (r: (FetchFlow, FetchStep<T>))
        requires
            fetch_accepts(self@.stage, event),
        ensures
            (r.0@, r.1@) == fetch_next(self@, event),
    {
        let resource = self.resource;
        let may_refresh = self.may_refresh;
        match (self.stage, event) {
            (FetchStage::ReadingAccessToken, FetchEvent::AccessToken(Ok(t))) => (
                FetchFlow { resource, may_refresh, stage: FetchStage::ReadingBaseUrl { access_token: t } },
                FetchStep::ReadBaseUrl,
            ),
            (FetchStage::ReadingAccessToken, FetchEvent::AccessToken(Err(_))) => (
                FetchFlow { resource, may_refresh, stage: FetchStage::Finished },
                FetchStep::Finish(Err(CommandError::NotLoggedIn)),
            ),
            (FetchStage::ReadingBaseUrl { access_token }, FetchEvent::BaseUrl(b)) => {
                let req = resource_request(b.as_str(), resource, access_token.as_str());
                (
                    FetchFlow {
                        resource,
                        may_refresh,
                        stage: FetchStage::Fetching { base_url: b, after_refresh: false },
                    },
                    FetchStep::Send(req),
                )
            },
            (FetchStage::Fetching { base_url, after_refresh }, FetchEvent::Fetched(Ok(v))) => (
                FetchFlow { resource, may_refresh, stage: FetchStage::Finished },
                FetchStep::Finish(Ok(v)),
            ),
            (FetchStage::Fetching { base_url, after_refresh }, FetchEvent::Fetched(Err(e))) => {
                let unauthorized = match &e {
                    ApiError::Unauthorized => true,
                    _ => false,
                };
                if unauthorized && may_refresh && !after_refresh {
                    (
                        FetchFlow { resource, may_refresh, stage: FetchStage::ReadingRefreshToken { base_url } },
                        FetchStep::ReadRefreshToken,
                    )
                } else {
                    (
                        FetchFlow { resource, may_refresh, stage: FetchStage::Finished },
                        FetchStep::Finish(Err(CommandError::Api(e))),
                    )
                }
            },
            (FetchStage::ReadingRefreshToken { base_url }, FetchEvent::RefreshToken(None)) => (
                FetchFlow { resource, may_refresh, stage: FetchStage::Finished },
                FetchStep::Finish(Err(CommandError::NotLoggedIn)),
            ),
            (FetchStage::ReadingRefreshToken { base_url }, FetchEvent::RefreshToken(Some(r))) => {
                let req = refresh_request(base_url.as_str(), r.as_str());
                (
                    FetchFlow { resource, may_refresh, stage: FetchStage::Refreshing { base_url } },
                    FetchStep::Refresh(req),
                )
            },
            (FetchStage::Refreshing { base_url }, FetchEvent::Refreshed(Err(e))) => (
                FetchFlow { resource, may_refresh, stage: FetchStage::Finished },
                FetchStep::Finish(Err(CommandError::Api(e))),
            ),
            (FetchStage::Refreshing { base_url }, FetchEvent::Refreshed(Ok(resp))) => {
                let access_token = resp.access_token.clone();
                (
                    FetchFlow {
                        resource,
                        may_refresh,
                        stage: FetchStage::StoringTokens { base_url, access_token },
                    },
                    FetchStep::StoreTokens {
                        access_token: resp.access_token,
                        refresh_token: refresh_update(resp.refresh_token),
                    },
                )
            },
            (FetchStage::StoringTokens { base_url, access_token }, FetchEvent::TokensStored(Err(e))) => (
                FetchFlow { resource, may_refresh, stage: FetchStage::Finished },
                FetchStep::Finish(Err(CommandError::Auth(e))),
            ),
            (FetchStage::StoringTokens { base_url, access_token }, FetchEvent::TokensStored(Ok(()))) => {
                let req = resource_request(base_url.as_str(), resource, access_token.as_str());
                (
                    FetchFlow {
                        resource,
                        may_refresh,
                        stage: FetchStage::Fetching { base_url, after_refresh: true },
                    },
                    FetchStep::Send(req),
                )
            },
            _ => {
                proof {
                    assert(false);
                }
                (FetchFlow { resource, may_refresh, stage: FetchStage::Finished }, FetchStep::ReadAccessToken)
            },
        }
    }
}

/// How many steps a fetch standing at `stage` has left at most.
pub open spec fn fetch_rank(stage: FetchStageView) -> nat {
    match stage {
        FetchStageView::ReadingAccessToken => 7,
        FetchStageView::ReadingBaseUrl { .. } => 6,
        FetchStageView::Fetching { after_refresh, .. } => if after_refresh { 1 } else { 5 },
        FetchStageView::ReadingRefreshToken { .. } => 4,
        FetchStageView::Refreshing { .. } => 3,
        FetchStageView::StoringTokens { .. } => 2,
        FetchStageView::Finished => 0,
    }
}

/// Every move of a fetch brings it closer to its end, keeps its resource
/// and its permission to refresh, and a fetch is finished exactly when its
/// step is the answer; so a fetch ends after at most seven steps.
pub proof fn fetch_moves_forward<T>(flow: FetchFlowView, event: FetchEvent<T>)
    requires
        fetch_accepts(flow.stage, event),
    ensures
        fetch_rank(fetch_next(flow, event).0.stage) < fetch_rank(flow.stage),
        fetch_next(flow, event).0.resource == flow.resource,
        fetch_next(flow, event).0.may_refresh == flow.may_refresh,
        (fetch_next(flow, event).0.stage is Finished) <==> (fetch_next(flow, event).1 is Finish),
{
}

/// The steps that a fetch takes when the caller reports `events` in turn
/// (up to the first event that the fetch does not wait for).
pub open spec fn fetch_run<T>(flow: FetchFlowView, events: Seq<FetchEvent<T>>) -> Seq<FetchStepView<T>>
    decreases events.len(),
{
    if events.len() == 0 || !fetch_accepts(flow.stage, events[0]) {
        Seq::empty()
    } else {
        seq![fetch_next(flow, events[0]).1] + fetch_run(
            fetch_next(flow, events[0]).0,
            events.drop_first(),
        )
    }
}

/// The number of refresh requests among `steps`.
pub open spec fn refresh_count<T>(steps: Seq<FetchStepView<T>>) -> nat
    decreases steps.len(),
{
    if steps.len() == 0 {
        0
    } else {
        (if steps[0] is Refresh { 1nat } else { 0nat }) + refresh_count(steps.drop_first())
    }
}

/// The stages that a fetch can stand at: one that may not refresh never
/// gets past its first request.
pub open spec fn fetch_well_formed(flow: FetchFlowView) -> bool {
    !flow.may_refresh ==> match flow.stage {
        FetchStageView::ReadingAccessToken => true,
        FetchStageView::ReadingBaseUrl { .. } => true,
        FetchStageView::Fetching { after_refresh, .. } => !after_refresh,
        FetchStageView::Finished => true,
        _ => false,
    }
}

/// How many refresh requests a fetch at this point may still send.
pub open spec fn refreshes_left(flow: FetchFlowView) -> nat {
    match flow.stage {
        FetchStageView::ReadingAccessToken => if flow.may_refresh { 1 } else { 0 },
        FetchStageView::ReadingBaseUrl { .. } => if flow.may_refresh { 1 } else { 0 },
        FetchStageView::Fetching { after_refresh, .. } => if flow.may_refresh && !after_refresh { 1 } else { 0 },
        FetchStageView::ReadingRefreshToken { .. } => 1,
        _ => 0,
    }
}

proof fn fetch_step_refresh_budget<T>(flow: FetchFlowView, event: FetchEvent<T>)
    requires
        fetch_well_formed(flow),
        fetch_accepts(flow.stage, event),
    ensures
        fetch_well_formed(fetch_next(flow, event).0),
        (if fetch_next(flow, event).1 is Refresh { 1nat } else { 0nat }) + refreshes_left(
            fetch_next(flow, event).0,
        ) <= refreshes_left(flow),
{
}

proof fn fetch_run_refresh_budget<T>(flow: FetchFlowView, events: Seq<FetchEvent<T>>)
    requires
        fetch_well_formed(flow),
    ensures
        refresh_count(fetch_run(flow, events)) <= refreshes_left(flow),
    decreases events.len(),
{
    if events.len() > 0 && fetch_accepts(flow.stage, events[0]) {
        let (next, step) = fetch_next(flow, events[0]);
        fetch_step_refresh_budget(flow, events[0]);
        fetch_run_refresh_budget(next, events.drop_first());
        let steps = fetch_run(flow, events);
        assert(steps.drop_first() =~= fetch_run(next, events.drop_first()));
    }
}

/// A fetch refreshes the access token at most once, and never when it was
/// started without permission to refresh, whatever the caller reports.
pub proof fn fetch_refreshes_at_most_once<T>(resource: Resource, may_refresh: bool, events: Seq<FetchEvent<T>>)
    ensures
        refresh_count(
            fetch_run(
                FetchFlowView { resource, may_refresh, stage: FetchStageView::ReadingAccessToken },
                events,
            ),
        ) <= if may_refresh { 1nat } else { 0nat },
{
    fetch_run_refresh_budget(
        FetchFlowView { resource, may_refresh, stage: FetchStageView::ReadingAccessToken },
        events,
    );
}

/// The number of resource requests among `steps`.
pub open spec fn send_count<T>(steps: Seq<FetchStepView<T>>) -> nat
    decreases steps.len(),
{
    if steps.len() == 0 {
        0
    } else {
        (if steps[0] is Send { 1nat } else { 0nat }) + send_count(steps.drop_first())
    }
}

/// How many resource requests a fetch at this point may still send.
pub open spec fn sends_left(flow: FetchFlowView) -> nat {
    match flow.stage {
        FetchStageView::ReadingAccessToken => if flow.may_refresh { 2 } else { 1 },
        FetchStageView::ReadingBaseUrl { .. } => if flow.may_refresh { 2 } else { 1 },
        FetchStageView::Fetching { after_refresh, .. } => if flow.may_refresh && !after_refresh { 1 } else { 0 },
        FetchStageView::ReadingRefreshToken { .. } => 1,
        FetchStageView::Refreshing { .. } => 1,
        FetchStageView::StoringTokens { .. } => 1,
        FetchStageView::Finished => 0,
    }
}

proof fn fetch_step_send_budget<T>(flow: FetchFlowView, event: FetchEvent<T>)
    requires
        fetch_well_formed(flow),
        fetch_accepts(flow.stage, event),
    ensures
        fetch_well_formed(fetch_next(flow, event).0),
        (if fetch_next(flow, event).1 is Send { 1nat } else { 0nat }) + sends_left(
            fetch_next(flow, event).0,
        ) <= sends_left(flow),
{
}

proof fn fetch_run_send_budget<T>(flow: FetchFlowView, events: Seq<FetchEvent<T>>)
    requires
        fetch_well_formed(flow),
    ensures
        send_count(fetch_run(flow, events)) <= sends_left(flow),
    decreases events.len(),
{
    if events.len() > 0 && fetch_accepts(flow.stage, events[0]) {
        let (next, step) = fetch_next(flow, events[0]);
        fetch_step_send_budget(flow, events[0]);
        fetch_run_send_budget(next, events.drop_first());
        let steps = fetch_run(flow, events);
        assert(steps.drop_first() =~= fetch_run(next, events.drop_first()));
    }
}

/// A fetch sends the resource request at most twice (the first request and
/// one retry after a refresh), and only once when it may not refresh,
/// whatever the caller reports.
pub proof fn fetch_sends_at_most_twice<T>(resource: Resource, may_refresh: bool, events: Seq<FetchEvent<T>>)
    ensures
        send_count(
            fetch_run(
                FetchFlowView { resource, may_refresh, stage: FetchStageView::ReadingAccessToken },
                events,
            ),
        ) <= if may_refresh { 2nat } else { 1nat },
{
    fetch_run_send_budget(
        FetchFlowView { resource, may_refresh, stage: FetchStageView::ReadingAccessToken },
        events,
    );
}

/// A fetch turns to the refresh token only when its first request was
/// answered with 401 and it may refresh.
pub proof fn fetch_refreshes_only_after_unauthorized<T>(flow: FetchFlowView, event: FetchEvent<T>)
    requires
        fetch_accepts(flow.stage, event),
        fetch_next(flow, event).1 is ReadRefreshToken,
    ensures
        event matches FetchEvent::Fetched(Err(ApiError::Unauthorized)),
        flow.may_refresh,
        flow.stage matches FetchStageView::Fetching { after_refresh, .. } && !after_refresh,
{
}

// ---------------------------------------------------------------------------
// Logging in, with a password or with a token
// ---------------------------------------------------------------------------

/// How a user logs in: with email and password, or with a token pasted
/// directly (whose `Bearer ` prefix has been removed).
#[derive(Debug, PartialEq, Eq)]
pub enum Credentials {
    Password { email: String, password: String },
    Token(String),
}

pub enum CredentialsView {
    Password { email: Seq<char>, password: Seq<char> },
    Token(Seq<char>),
}

impl View for Credentials {
    type V = CredentialsView;

    open spec fn view(&self) -> CredentialsView {
        match self {
            Credentials::Password { email, password } => CredentialsView::Password {
                email: email@,
                password: password@,
            },
            Credentials::Token(t) => CredentialsView::Token(t@),
        }
    }
}

/// Where a login stands.
#[derive(Debug)]
pub enum LoginStage {
    /// Waiting for the base URL to be stored.
    SavingBaseUrl { base_url: String, credentials: Credentials },
    /// Waiting for the reply of the login endpoint.
    SigningIn,
    /// Waiting for the reply to the check of a pasted token.
    CheckingToken { token: String },
    /// Waiting for the tokens to be stored.
    SavingTokens,
    /// The command has its answer.
    Finished,
}

pub enum LoginStageView {
    SavingBaseUrl { base_url: Seq<char>, credentials: CredentialsView },
    SigningIn,
    CheckingToken { token: Seq<char> },
    SavingTokens,
    Finished,
}

impl View for LoginStage {
    type V = LoginStageView;

    open spec fn view(&self) -> LoginStageView {
        match self {
            LoginStage::SavingBaseUrl { base_url, credentials } => LoginStageView::SavingBaseUrl {
                base_url: base_url@,
                credentials: credentials@,
            },
            LoginStage::SigningIn => LoginStageView::SigningIn,
            LoginStage::CheckingToken { token } => LoginStageView::CheckingToken { token: token@ },
            LoginStage::SavingTokens => LoginStageView::SavingTokens,
            LoginStage::Finished => LoginStageView::Finished,
        }
    }
}

/// A login command in progress.
#[derive(Debug)]
pub struct LoginFlow {
    pub stage: LoginStage,
}

impl View for LoginFlow {
    type V = LoginStageView;

    open spec fn view(&self) -> LoginStageView {
        self.stage@
    }
}

/// What the caller is to do next for a login.
#[derive(Debug)]
pub enum LoginStep {
    /// Store this base URL.
    SaveBaseUrl(String),
    /// Send this request and report its outcome.
    Send(Request),
    /// Store the access token and update the stored refresh token as said.
    SaveTokens { access_token: String, refresh_token: RefreshTokenUpdate },
    /// The command's answer.
    Finish(Result<bool, CommandError>),
}

pub enum LoginStepView {
    SaveBaseUrl(Seq<char>),
    Send(RequestView),
    SaveTokens { access_token: Seq<char>, refresh_token: RefreshUpdateView },
    Finish(Result<bool, CommandFailure>),
}

impl View for LoginStep {
    type V = LoginStepView;

    open spec fn view(&self) -> LoginStepView {
        match self {
            LoginStep::SaveBaseUrl(b) => LoginStepView::SaveBaseUrl(b@),
            LoginStep::Send(r) => LoginStepView::Send(r@),
            LoginStep::SaveTokens { access_token, refresh_token } => LoginStepView::SaveTokens {
                access_token: access_token@,
                refresh_token: refresh_token@,
            },
            LoginStep::Finish(r) => LoginStepView::Finish(answer_view(*r)),
        }
    }
}

/// What the caller reports back after a login step.
#[derive(Debug)]
pub enum LoginEvent {
    /// How storing the base URL went.
    BaseUrlSaved(Result<(), AuthError>),
    /// The outcome of the login request.
    SignedIn(Result<LoginResponse, ApiError>),
    /// The outcome of the request that checks a pasted token (its data is
    /// not needed).
    TokenChecked(Result<(), ApiError>),
    /// How storing the tokens went.
    TokensSaved(Result<(), AuthError>),
}

/// Whether a login standing at `stage` waits for `event`.
pub open spec fn login_accepts(stage: LoginStageView, event: LoginEvent) -> bool {
    match stage {
        LoginStageView::SavingBaseUrl { .. } => event is BaseUrlSaved,
        LoginStageView::SigningIn => event is SignedIn,
        LoginStageView::CheckingToken { .. } => event is TokenChecked,
        LoginStageView::SavingTokens => event is TokensSaved,
        LoginStageView::Finished => false,
    }
}

/// One move of a login: the stage after `event`, and the next step.  With
/// the base URL stored, the credentials go to the server: a password to the
/// login endpoint, a pasted token to the dashboard statistics as a check.
/// What the server accepts is stored (for a pasted token, the stored
/// refresh token is removed), and the answer is `true`.  A failure of the
/// credential store or of the server is the answer.
pub open spec fn login_next(stage: LoginStageView, event: LoginEvent) -> (LoginStageView, LoginStepView) {
    match (stage, event) {
        (LoginStageView::SavingBaseUrl { .. }, LoginEvent::BaseUrlSaved(Err(e))) => (
            LoginStageView::Finished,
            LoginStepView::Finish(Err(CommandFailure::Auth(e@))),
        ),
        (
            LoginStageView::SavingBaseUrl { base_url, credentials },
            LoginEvent::BaseUrlSaved(Ok(())),
        ) => match credentials {
            CredentialsView::Password { email, password } => (
                LoginStageView::SigningIn,
                LoginStepView::Send(
                    RequestView::PostJson {
                        url: base_url + login_path(),
                        body: login_body(email, password),
                    },
                ),
            ),
            CredentialsView::Token(t) => (
                LoginStageView::CheckingToken { token: t },
                LoginStepView::Send(
                    RequestView::GetWithBearer {
                        url: base_url + resource_path(Resource::DashboardStats),
                        token: t,
                    },
                ),
            ),
        },
        (LoginStageView::SigningIn, LoginEvent::SignedIn(Err(e))) => (
            LoginStageView::Finished,
            LoginStepView::Finish(Err(CommandFailure::Api(e@))),
        ),
        (LoginStageView::SigningIn, LoginEvent::SignedIn(Ok(resp))) => (
            LoginStageView::SavingTokens,
            LoginStepView::SaveTokens {
                access_token: resp.access_token@,
                refresh_token: handed_out(resp.refresh_token),
            },
        ),
        (LoginStageView::CheckingToken { .. }, LoginEvent::TokenChecked(Err(e))) => (
            LoginStageView::Finished,
            LoginStepView::Finish(Err(CommandFailure::Api(e@))),
        ),
        (LoginStageView::CheckingToken { token }, LoginEvent::TokenChecked(Ok(()))) => (
            LoginStageView::SavingTokens,
            LoginStepView::SaveTokens { access_token: token, refresh_token: RefreshUpdateView::Remove },
        ),
        (LoginStageView::SavingTokens, LoginEvent::TokensSaved(Err(e))) => (
            LoginStageView::Finished,
            LoginStepView::Finish(Err(CommandFailure::Auth(e@))),
        ),
        (LoginStageView::SavingTokens, LoginEvent::TokensSaved(Ok(()))) => (
            LoginStageView::Finished,
            LoginStepView::Finish(Ok(true)),
        ),
        _ => (stage, LoginStepView::Finish(Ok(false))),
    }
}

impl LoginFlow {
    /// Starts a login with email and password against the typed base URL
    /// (trimmed, or the default when blank); the first step stores it.
    pub fn with_password(email: String, password: String, base_url: &str) -> (r: (LoginFlow, LoginStep))
        ensures
            r.0@ == (LoginStageView::SavingBaseUrl {
                base_url: normalized_base_url(base_url@),
                credentials: CredentialsView::Password { email: email@, password: password@ },
            }),
            r.1@ == LoginStepView::SaveBaseUrl(normalized_base_url(base_url@)),
    {
        let base = normalize_base_url(base_url);
        let saved = base.clone();
        (
            LoginFlow {
                stage: LoginStage::SavingBaseUrl {
                    base_url: base,
                    credentials: Credentials::Password { email, password },
                },
            },
            LoginStep::SaveBaseUrl(saved),
        )
    }

    /// Starts a login with a pasted token (one leading `Bearer ` or
    /// `bearer ` is dropped) against the typed base URL (trimmed, or the
    /// default when blank); the first step stores the base URL.
    pub fn with_token(token: &str, base_url: &str) -> (r: (LoginFlow, LoginStep))
        ensures
            r.0@ == (LoginStageView::SavingBaseUrl {
                base_url: normalized_base_url(base_url@),
                credentials: CredentialsView::Token(without_bearer(token@)),
            }),
            r.1@ == LoginStepView::SaveBaseUrl(normalized_base_url(base_url@)),
    {
        let base = normalize_base_url(base_url);
        let saved = base.clone();
        let t = strip_bearer(token);
        (
            LoginFlow {
                stage: LoginStage::SavingBaseUrl { base_url: base, credentials: Credentials::Token(t) },
            },
            LoginStep::SaveBaseUrl(saved),
        )
    }

    /// Whether this login waits for `event`.
    pub fn accepts(&self, event: &LoginEvent) -> (b: bool)
        ensures
            b == login_accepts(self@, *event),
    {
        match (&self.stage, event) {
            (LoginStage::SavingBaseUrl { .. }, LoginEvent::BaseUrlSaved(_)) => true,
            (LoginStage::SigningIn, LoginEvent::SignedIn(_)) => true,
            (LoginStage::CheckingToken { .. }, LoginEvent::TokenChecked(_)) => true,
            (LoginStage::SavingTokens, LoginEvent::TokensSaved(_)) => true,
            _ => false,
        }
    }

    /// Takes the outcome of the last step and gives the next one.
    pub fn step(self, event: LoginEvent) -> (r: (LoginFlow, LoginStep))
        requires
            login_accepts(self@, event),
        ensures
            (r.0@, r.1@) == login_next(self@, event),
    {
        match (self.stage, event) {
            (LoginStage::SavingBaseUrl { .. }, LoginEvent::BaseUrlSaved(Err(e))) => (
                LoginFlow { stage: LoginStage::Finished },
                LoginStep::Finish(Err(CommandError::Auth(e))),
            ),
            (LoginStage::SavingBaseUrl { base_url, credentials }, LoginEvent::BaseUrlSaved(Ok(()))) => {
                match credentials {
                    Credentials::Password { email, password } => {
                        let req = login_request(base_url.as_str(), email.as_str(), password.as_str());
                        (LoginFlow { stage: LoginStage::SigningIn }, LoginStep::Send(req))
                    },
                    Credentials::Token(token) => {
                        let req = resource_request(
                            base_url.as_str(),
                            Resource::DashboardStats,
                            token.as_str(),
                        );
                        (LoginFlow { stage: LoginStage::CheckingToken { token } }, LoginStep::Send(req))
                    },
                }
            },
            (LoginStage::SigningIn, LoginEvent::SignedIn(Err(e))) => (
                LoginFlow { stage: LoginStage::Finished },
                LoginStep::Finish(Err(CommandError::Api(e))),
            ),
            (LoginStage::SigningIn, LoginEvent::SignedIn(Ok(resp))) => (
                LoginFlow { stage: LoginStage::SavingTokens },
                LoginStep::SaveTokens {
                    access_token: resp.access_token,
                    refresh_token: refresh_update(resp.refresh_token),
                },
            ),
            (LoginStage::CheckingToken { .. }, LoginEvent::TokenChecked(Err(e))) => (
                LoginFlow { stage: LoginStage::Finished },
                LoginStep::Finish(Err(CommandError::Api(e))),
            ),
            (LoginStage::CheckingToken { token }, LoginEvent::TokenChecked(Ok(()))) => (
                LoginFlow { stage: LoginStage::SavingTokens },
                LoginStep::SaveTokens { access_token: token, refresh_token: RefreshTokenUpdate::Remove },
            ),
            (LoginStage::SavingTokens, LoginEvent::TokensSaved(Err(e))) => (
                LoginFlow { stage: LoginStage::Finished },
                LoginStep::Finish(Err(CommandError::Auth(e))),
            ),
            (LoginStage::SavingTokens, LoginEvent::TokensSaved(Ok(()))) => (
                LoginFlow { stage: LoginStage::Finished },
                LoginStep::Finish(Ok(true)),
            ),
            _ => {
                proof {
                    assert(false);
                }
                (LoginFlow { stage: LoginStage::Finished }, LoginStep::Finish(Ok(false)))
            },
        }
    }
}

/// How many steps a login standing at `stage` has left at most.
pub open spec fn login_rank(stage: LoginStageView) -> nat {
    match stage {
        LoginStageView::SavingBaseUrl { .. } => 3,
        LoginStageView::SigningIn => 2,
        LoginStageView::CheckingToken { .. } => 2,
        LoginStageView::SavingTokens => 1,
        LoginStageView::Finished => 0,
    }
}

/// Every move of a login brings it closer to its end, and a login is
/// finished exactly when its step is the answer; so a login ends after at
/// most four steps.
pub proof fn login_moves_forward(stage: LoginStageView, event: LoginEvent)
    requires
        login_accepts(stage, event),
    ensures
        login_rank(login_next(stage, event).0) < login_rank(stage),
        (login_next(stage, event).0 is Finished) <==> (login_next(stage, event).1 is Finish),
{
}

/// The steps that a login takes when the caller reports `events` in turn
/// (up to the first event that the login does not wait for).
pub open spec fn login_run(stage: LoginStageView, events: Seq<LoginEvent>) -> Seq<LoginStepView>
    decreases events.len(),
{
    if events.len() == 0 || !login_accepts(stage, events[0]) {
        Seq::empty()
    } else {
        seq![login_next(stage, events[0]).1] + login_run(login_next(stage, events[0]).0, events.drop_first())
    }
}

/// Whether some step among `steps` stores tokens without removing the
/// stored refresh token.
pub open spec fn leaves_refresh_token(steps: Seq<LoginStepView>) -> bool
    decreases steps.len(),
{
    steps.len() > 0 && ((steps[0] matches LoginStepView::SaveTokens { refresh_token, .. }
        && !(refresh_token is Remove)) || leaves_refresh_token(steps.drop_first()))
}

proof fn token_login_run_removes_refresh_token(stage: LoginStageView, events: Seq<LoginEvent>)
    requires
        stage matches LoginStageView::SavingBaseUrl { credentials, .. } ==> credentials is Token,
        !(stage is SigningIn),
    ensures
        !leaves_refresh_token(login_run(stage, events)),
    decreases events.len(),
{
    if events.len() > 0 && login_accepts(stage, events[0]) {
        let (next, step) = login_next(stage, events[0]);
        token_login_run_removes_refresh_token(next, events.drop_first());
        let steps = login_run(stage, events);
        assert(steps.drop_first() =~= login_run(next, events.drop_first()));
    }
}

/// A login with a pasted token stores no refresh token: whatever the caller
/// reports, every time it stores tokens it also removes the stored refresh
/// token (so one left by an earlier login is not used to refresh).
pub proof fn token_login_removes_refresh_token(base_url: Seq<char>, token: Seq<char>, events: Seq<LoginEvent>)
    ensures
        !leaves_refresh_token(
            login_run(
                LoginStageView::SavingBaseUrl { base_url, credentials: CredentialsView::Token(token) },
                events,
            ),
        ),
{
    token_login_run_removes_refresh_token(
        LoginStageView::SavingBaseUrl { base_url, credentials: CredentialsView::Token(token) },
        events,
    );
}

// ---------------------------------------------------------------------------
// What the commands are for
// ---------------------------------------------------------------------------

/// Every resource request that a fetch sends is for the resource the fetch
/// was started for, at the base URL it holds.
pub proof fn fetch_requests_its_own_resource<T>(flow: FetchFlowView, event: FetchEvent<T>)
    requires
        fetch_accepts(flow.stage, event),
    ensures
        fetch_next(flow, event).1 matches FetchStepView::Send(r) ==> (fetch_next(flow, event).0.stage matches FetchStageView::Fetching { base_url, .. }
            && r matches RequestView::GetWithBearer { url, .. } && url == base_url
            + resource_path(flow.resource)),
{
}

/// A fetch first reads the access token and the base URL, then requests its
/// resource at that base URL with that token.
pub proof fn fetch_first_request<T>(resource: Resource, may_refresh: bool, access_token: String, base_url: String)
    ensures
        ({
            let start = FetchFlowView {
                resource,
                may_refresh,
                stage: FetchStageView::ReadingAccessToken,
            };
            let events = seq![
                FetchEvent::<T>::AccessToken(Ok(access_token)),
                FetchEvent::<T>::BaseUrl(base_url),
            ];
            fetch_run(start, events) == seq![
                FetchStepView::<T>::ReadBaseUrl,
                FetchStepView::<T>::Send(
                    RequestView::GetWithBearer {
                        url: base_url@ + resource_path(resource),
                        token: access_token@,
                    },
                ),
            ]
        }),
{
    let start = FetchFlowView { resource, may_refresh, stage: FetchStageView::ReadingAccessToken };
    let events = seq![FetchEvent::<T>::AccessToken(Ok(access_token)), FetchEvent::<T>::BaseUrl(base_url)];
    reveal_with_fuel(fetch_run, 3);
    assert(events.drop_first() =~= seq![FetchEvent::<T>::BaseUrl(base_url)]);
    assert(events.drop_first().drop_first() =~= Seq::<FetchEvent<T>>::empty());
    assert(fetch_run(start, events) =~= seq![
        FetchStepView::<T>::ReadBaseUrl,
        FetchStepView::<T>::Send(
            RequestView::GetWithBearer { url: base_url@ + resource_path(resource), token: access_token@ },
        ),
    ]);
}

/// A fetch whose command refreshes on 401 and whose first request is
/// answered 401 reads the refresh token, posts it to the refresh endpoint,
/// stores the tokens it gets, and asks again for the same resource at the
/// same base URL with the new access token.
pub proof fn fetch_retries_same_request_with_new_token<T>(
    resource: Resource,
    access_token: String,
    base_url: String,
    refresh_token: String,
    refreshed: LoginResponse,
)
    requires
        refreshes_on_401(resource),
    ensures
        ({
            let start = FetchFlowView {
                resource,
                may_refresh: refreshes_on_401(resource),
                stage: FetchStageView::ReadingAccessToken,
            };
            let events = seq![
                FetchEvent::<T>::AccessToken(Ok(access_token)),
                FetchEvent::<T>::BaseUrl(base_url),
                FetchEvent::<T>::Fetched(Err(ApiError::Unauthorized)),
                FetchEvent::<T>::RefreshToken(Some(refresh_token)),
                FetchEvent::<T>::Refreshed(Ok(refreshed)),
                FetchEvent::<T>::TokensStored(Ok(())),
            ];
            fetch_run(start, events) == seq![
                FetchStepView::<T>::ReadBaseUrl,
                FetchStepView::<T>::Send(
                    RequestView::GetWithBearer {
                        url: base_url@ + resource_path(resource),
                        token: access_token@,
                    },
                ),
                FetchStepView::<T>::ReadRefreshToken,
                FetchStepView::<T>::Refresh(
                    RequestView::PostJson {
                        url: base_url@ + refresh_path(),
                        body: refresh_body(refresh_token@),
                    },
                ),
                FetchStepView::<T>::StoreTokens {
                    access_token: refreshed.access_token@,
                    refresh_token: handed_out(refreshed.refresh_token),
                },
                FetchStepView::<T>::Send(
                    RequestView::GetWithBearer {
                        url: base_url@ + resource_path(resource),
                        token: refreshed.access_token@,
                    },
                ),
            ]
        }),
{
    let start = FetchFlowView {
        resource,
        may_refresh: refreshes_on_401(resource),
        stage: FetchStageView::ReadingAccessToken,
    };
    let events = seq![
        FetchEvent::<T>::AccessToken(Ok(access_token)),
        FetchEvent::<T>::BaseUrl(base_url),
        FetchEvent::<T>::Fetched(Err(ApiError::Unauthorized)),
        FetchEvent::<T>::RefreshToken(Some(refresh_token)),
        FetchEvent::<T>::Refreshed(Ok(refreshed)),
        FetchEvent::<T>::TokensStored(Ok(())),
    ];
    let e1 = events.drop_first();
    let e2 = e1.drop_first();
    let e3 = e2.drop_first();
    let e4 = e3.drop_first();
    let e5 = e4.drop_first();
    let e6 = e5.drop_first();
    assert(e6 =~= Seq::<FetchEvent<T>>::empty());
    let (f1, s1) = fetch_next(start, events[0]);
    let (f2, s2) = fetch_next(f1, e1[0]);
    let (f3, s3) = fetch_next(f2, e2[0]);
    let (f4, s4) = fetch_next(f3, e3[0]);
    let (f5, s5) = fetch_next(f4, e4[0]);
    let (f6, s6) = fetch_next(f5, e5[0]);
    assert(fetch_run(f6, e6) =~= Seq::<FetchStepView<T>>::empty());
    assert(fetch_run(f5, e5) =~= seq![s6]);
    assert(fetch_run(f4, e4) =~= seq![s5, s6]);
    assert(fetch_run(f3, e3) =~= seq![s4, s5, s6]);
    assert(fetch_run(f2, e2) =~= seq![s3, s4, s5, s6]);
    assert(fetch_run(f1, e1) =~= seq![s2, s3, s4, s5, s6]);
    assert(fetch_run(start, events) =~= seq![s1, s2, s3, s4, s5, s6]);
}

/// A login stores tokens only after the server accepted the credentials: a
/// password login's tokens come from the login endpoint's answer, a pasted
/// token is stored only after its check passed.  Any refusal or failure of
/// the server is the command's answer, unchanged, and nothing is stored.
pub proof fn login_stores_only_accepted_tokens(stage: LoginStageView, event: LoginEvent)
    requires
        login_accepts(stage, event),
    ensures
        login_next(stage, event).1 is SaveTokens ==> (event matches LoginEvent::SignedIn(Ok(_))
            || event matches LoginEvent::TokenChecked(Ok(()))),
        event matches LoginEvent::SignedIn(Ok(resp)) ==> login_next(stage, event).1 matches LoginStepView::SaveTokens { access_token, .. }
            && access_token == resp.access_token@,
        stage matches LoginStageView::CheckingToken { token } ==> (event matches LoginEvent::TokenChecked(Ok(())) ==> login_next(stage, event).1 matches LoginStepView::SaveTokens { access_token, refresh_token }
            && access_token == token && refresh_token is Remove),
        event matches LoginEvent::TokenChecked(Err(e)) ==> login_next(stage, event).1
            == LoginStepView::Finish(Err(CommandFailure::Api(e@))),
        event matches LoginEvent::SignedIn(Err(e)) ==> login_next(stage, event).1
            == LoginStepView::Finish(Err(CommandFailure::Api(e@))),
{
}

/// A login answers `true` only once the tokens are stored; a failure to
/// store the base URL or the tokens is the command's answer.
pub proof fn login_succeeds_only_when_stored(stage: LoginStageView, event: LoginEvent)
    requires
        login_accepts(stage, event),
    ensures
        login_next(stage, event).1 matches LoginStepView::Finish(Ok(b)) ==> (b && stage is SavingTokens
            && event matches LoginEvent::TokensSaved(Ok(()))),
        event matches LoginEvent::TokensSaved(Err(e)) ==> login_next(stage, event).1
            == LoginStepView::Finish(Err(CommandFailure::Auth(e@))),
        event matches LoginEvent::BaseUrlSaved(Err(e)) ==> login_next(stage, event).1
            == LoginStepView::Finish(Err(CommandFailure::Auth(e@))),
        event matches LoginEvent::TokensSaved(Ok(())) ==> login_next(stage, event).1
            == LoginStepView::Finish(Ok(true)),
{
}

/// A fetch answers with what it was given: the data of a successful
/// request; `NotLoggedIn` when no access token (or, after a 401, no refresh
/// token) is stored; and any failure of the server or of the credential
/// store unchanged, except the one 401 that leads to a refresh.
pub proof fn fetch_answers_pass_through<T>(flow: FetchFlowView, event: FetchEvent<T>)
    requires
        fetch_accepts(flow.stage, event),
    ensures
        event matches FetchEvent::Fetched(Ok(v)) ==> fetch_next(flow, event).1 == FetchStepView::<T>::Finish(Ok(v)),
        event matches FetchEvent::AccessToken(Err(_)) ==> fetch_next(flow, event).1
            == FetchStepView::<T>::Finish(Err(CommandFailure::NotLoggedIn)),
        event matches FetchEvent::RefreshToken(None) ==> fetch_next(flow, event).1
            == FetchStepView::<T>::Finish(Err(CommandFailure::NotLoggedIn)),
        event matches FetchEvent::Refreshed(Err(e)) ==> fetch_next(flow, event).1
            == FetchStepView::<T>::Finish(Err(CommandFailure::Api(e@))),
        event matches FetchEvent::TokensStored(Err(e)) ==> fetch_next(flow, event).1
            == FetchStepView::<T>::Finish(Err(CommandFailure::Auth(e@))),
        event matches FetchEvent::Fetched(Err(e)) ==> (fetch_next(flow, event).1
            == FetchStepView::<T>::Finish(Err(CommandFailure::Api(e@))) || (e is Unauthorized
            && flow.may_refresh && fetch_next(flow, event).1 is ReadRefreshToken)),
        fetch_next(flow, event).1 matches FetchStepView::Finish(Ok(v)) ==> event
            == FetchEvent::Fetched(Ok::<T, ApiError>(v)),
{
}

/// A password login stores the base URL, posts the email and password to
/// the login endpoint at that base URL, stores the tokens the server hands
/// out, and answers `true`.
pub proof fn password_login_run(
    base_url: Seq<char>,
    email: Seq<char>,
    password: Seq<char>,
    accepted: LoginResponse,
)
    ensures
        login_run(
            LoginStageView::SavingBaseUrl {
                base_url,
                credentials: CredentialsView::Password { email, password },
            },
            seq![
                LoginEvent::BaseUrlSaved(Ok(())),
                LoginEvent::SignedIn(Ok(accepted)),
                LoginEvent::TokensSaved(Ok(())),
            ],
        ) == seq![
            LoginStepView::Send(
                RequestView::PostJson { url: base_url + login_path(), body: login_body(email, password) },
            ),
            LoginStepView::SaveTokens {
                access_token: accepted.access_token@,
                refresh_token: handed_out(accepted.refresh_token),
            },
            LoginStepView::Finish(Ok(true)),
        ],
{
    let st = LoginStageView::SavingBaseUrl {
        base_url,
        credentials: CredentialsView::Password { email, password },
    };
    let events = seq![
        LoginEvent::BaseUrlSaved(Ok(())),
        LoginEvent::SignedIn(Ok(accepted)),
        LoginEvent::TokensSaved(Ok(())),
    ];
    let e1 = events.drop_first();
    let e2 = e1.drop_first();
    let e3 = e2.drop_first();
    assert(e3 =~= Seq::<LoginEvent>::empty());
    let (g1, s1) = login_next(st, events[0]);
    let (g2, s2) = login_next(g1, e1[0]);
    let (g3, s3) = login_next(g2, e2[0]);
    assert(login_run(g3, e3) =~= Seq::<LoginStepView>::empty());
    assert(login_run(g2, e2) =~= seq![s3]);
    assert(login_run(g1, e1) =~= seq![s2, s3]);
    assert(login_run(st, events) =~= seq![s1, s2, s3]);
}

/// A token login stores the base URL, checks the token against the
/// dashboard statistics at that base URL, stores it as the access token
/// (removing any stored refresh token) once the check passed, and answers
/// `true`.
pub proof fn token_login_run(base_url: Seq<char>, token: Seq<char>)
    ensures
        login_run(
            LoginStageView::SavingBaseUrl { base_url, credentials: CredentialsView::Token(token) },
            seq![
                LoginEvent::BaseUrlSaved(Ok(())),
                LoginEvent::TokenChecked(Ok(())),
                LoginEvent::TokensSaved(Ok(())),
            ],
        ) == seq![
            LoginStepView::Send(
                RequestView::GetWithBearer {
                    url: base_url + resource_path(Resource::DashboardStats),
                    token,
                },
            ),
            LoginStepView::SaveTokens { access_token: token, refresh_token: RefreshUpdateView::Remove },
            LoginStepView::Finish(Ok(true)),
        ],
{
    let st = LoginStageView::SavingBaseUrl { base_url, credentials: CredentialsView::Token(token) };
    let events = seq![
        LoginEvent::BaseUrlSaved(Ok(())),
        LoginEvent::TokenChecked(Ok(())),
        LoginEvent::TokensSaved(Ok(())),
    ];
    let e1 = events.drop_first();
    let e2 = e1.drop_first();
    let e3 = e2.drop_first();
    assert(e3 =~= Seq::<LoginEvent>::empty());
    let (g1, s1) = login_next(st, events[0]);
    let (g2, s2) = login_next(g1, e1[0]);
    let (g3, s3) = login_next(g2, e2[0]);
    assert(login_run(g3, e3) =~= Seq::<LoginStepView>::empty());
    assert(login_run(g2, e2) =~= seq![s3]);
    assert(login_run(g1, e1) =~= seq![s2, s3]);
    assert(login_run(st, events) =~= seq![s1, s2, s3]);
}

} // verus!
