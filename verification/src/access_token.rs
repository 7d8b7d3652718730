//! The access-token lifecycle: when a cached token must be replaced, how a
//! refresh proceeds, and how its result is merged into a live context.

use vstd::prelude::*;

use crate::errors::{ApiErrorResponse, ConnectorError};
use crate::request::Request;
use crate::services::{
    ConnectorIntegration, PendingCall, Progress, continue_connector_processing_step,
    continue_post, execute_connector_processing_step, execute_post,
};
use crate::types::{
    AccessToken, AccessTokenAuth, AccessTokenRequestData, AddAccessTokenResult,
    CallConnectorAction, Connectors, ErrorResponse, RouterData, TransportOutcome,
    router_data_type_conversion,
};

verus! {

/// Whether a token read from the cache must be replaced at time `now`.
///
/// An absent token always must. A token with a recorded creation time must
/// once `now` lies past creation time plus validity. A token without a
/// recorded creation time is a static credential and never must.
pub open spec fn refresh_required(old_access_token: Option<&AccessToken>, now: int) -> bool {
    match old_access_token {
        None => true,
        Some(access_token) => match access_token.refresh_token_created_at {
            Some(created_at) => now > created_at + access_token.expires,
            None => false,
        },
    }
}

/// Decides at the given Unix time whether a new access token is required.
pub fn is_new_access_token_required_at(old_access_token: Option<&AccessToken>, now: i64) -> (required:
    bool)
    ensures
        required == refresh_required(old_access_token, now as int),
        old_access_token is None ==> required,
        old_access_token matches Some(token) && token.refresh_token_created_at is None
            ==> !required,
{
    match old_access_token {
        Some(access_token) => match access_token.refresh_token_created_at {
            Some(created_at) => (now as i128) > (created_at as i128) + (access_token.expires as i128),
            None => false,
        },
        None => true,
    }
}

/// `time::OffsetDateTime::now_utc` followed by `unix_timestamp`: the current
/// time in seconds since the Unix epoch. Nothing is claimed of the value.
#[verifier::external_body]
fn unix_timestamp_now() -> i64 {
    time::OffsetDateTime::now_utc().unix_timestamp()
}

/// Decides at the current time whether a new access token is required.
///
/// The answer is that of [`is_new_access_token_required_at`] for some
/// reading of the clock; without a token, or with a token that has no
/// recorded creation time, it does not depend on the clock.
pub fn is_new_access_token_required(old_access_token: Option<&AccessToken>) -> (required: bool)
    ensures
        exists|now: i64| required == refresh_required(old_access_token, now as int),
        old_access_token is None ==> required,
        old_access_token matches Some(token) && token.refresh_token_created_at is None
            ==> !required,
{
    let now: i64 = unix_timestamp_now();
    is_new_access_token_required_at(old_access_token, now)
}

/// Whether a token result is merged into the context at all: only for a
/// connector that uses access tokens, and only when the call will go out.
pub open spec fn should_update_router_data(
    add_access_token_result: &AddAccessTokenResult,
    call_connector_action: &CallConnectorAction,
) -> bool {
    add_access_token_result.connector_supports_access_token && *call_connector_action
        == CallConnectorAction::Trigger
}

/// Merges the result of the token step into the caller's context and says
/// whether the pipeline continues.
///
/// Where the merge applies, a token (or its absence) fills the context's
/// token slot and the pipeline continues; a failed token outcome becomes the
/// context's outcome and the pipeline stops. Where it does not apply the
/// context is untouched and the pipeline continues.
pub fn update_router_data_with_access_token_result<F, Req, Res>(
    add_access_token_result: &AddAccessTokenResult,
    router_data: &mut RouterData<F, Req, Res>,
    call_connector_action: &CallConnectorAction,
) -> (proceed: bool)
    ensures
        should_update_router_data(add_access_token_result, call_connector_action) ==> (
        match add_access_token_result.access_token_result {
            Ok(access_token) => proceed && *final(router_data) == (RouterData {
                access_token,
                ..*old(router_data)
            }),
            Err(connector_error) => !proceed && *final(router_data) == (RouterData {
                response: Err(connector_error),
                ..*old(router_data)
            }),
        }),
        !should_update_router_data(add_access_token_result, call_connector_action) ==> proceed
            && *final(router_data) == *old(router_data),
        !add_access_token_result.connector_supports_access_token ==> proceed
            && *final(router_data) == *old(router_data),
        *call_connector_action == CallConnectorAction::Skip ==> proceed && *final(router_data)
            == *old(router_data),
{
    let should_update = add_access_token_result.connector_supports_access_token && matches!(
        call_connector_action,
        CallConnectorAction::Trigger
    );
    if should_update {
        match &add_access_token_result.access_token_result {
            Ok(access_token) => {
                router_data.access_token = match access_token {
                    Some(token) => Some(token.clone()),
                    None => None,
                };
                true
            },
            Err(connector_error) => {
                router_data.response = Err(connector_error.clone());
                false
            },
        }
    } else {
        true
    }
}

/// The context of an access-token flow.
pub type RefreshRouterData = RouterData<AccessTokenAuth, AccessTokenRequestData, AccessToken>;

/// A refresh that waits for the outcome of a request.
pub type RefreshCall = PendingCall<AccessTokenAuth, AccessTokenRequestData, AccessToken>;

/// How far a refresh has come.
#[derive(Debug, PartialEq, Eq)]
pub enum RefreshProgress {
    /// The request must be sent; the refresh goes on with its outcome.
    Send { call: RefreshCall, request: Request },
    /// The refresh is over: this is the new token, or the processor's error.
    Finished(Result<AccessToken, ErrorResponse>),
}

/// What the progress of the access-token operation means for the refresh.
/// Any failure of the operation itself is an internal failure.
pub open spec fn refresh_progress_of(
    progress: Result<
        Progress<AccessTokenAuth, AccessTokenRequestData, AccessToken>,
        ConnectorError,
    >,
) -> Result<RefreshProgress, ApiErrorResponse> {
    match progress {
        Err(_) => Err(ApiErrorResponse::InternalServerError),
        Ok(Progress::Send { call, request }) => Ok(RefreshProgress::Send { call, request }),
        Ok(Progress::Done(router_data)) => Ok(RefreshProgress::Finished(router_data.response)),
    }
}

fn refresh_progress(
    progress: Result<
        Progress<AccessTokenAuth, AccessTokenRequestData, AccessToken>,
        ConnectorError,
    >,
) -> (r: Result<RefreshProgress, ApiErrorResponse>)
    ensures
        r == refresh_progress_of(progress),
{
    match progress {
        Err(_) => Err(ApiErrorResponse::InternalServerError),
        Ok(Progress::Send { call, request }) => Ok(RefreshProgress::Send { call, request }),
        Ok(Progress::Done(router_data)) => Ok(RefreshProgress::Finished(router_data.response)),
    }
}

/// Starts a token refresh: the access-token operation of the adapter, with
/// the network step switched on whatever the caller's own call action is.
pub fn refresh_connector_auth<
    C: ConnectorIntegration<AccessTokenAuth, AccessTokenRequestData, AccessToken>,
>(integration: &C, connectors: &Connectors, router_data: RefreshRouterData) -> (r: Result<
    RefreshProgress,
    ApiErrorResponse,
>)
    ensures
        refresh_started(integration, connectors, router_data, r),
{
    let progress = execute_connector_processing_step(
        integration,
        router_data,
        connectors,
        CallConnectorAction::Trigger,
    );
    refresh_progress(progress)
}

/// Carries a token refresh on with the outcome of its request.
pub fn continue_refresh_connector_auth<
    C: ConnectorIntegration<AccessTokenAuth, AccessTokenRequestData, AccessToken>,
>(integration: &C, connectors: &Connectors, call: RefreshCall, outcome: TransportOutcome) -> (r:
    Result<RefreshProgress, ApiErrorResponse>)
    ensures
        refresh_continued(integration, connectors, call, outcome, r),
{
    let progress = continue_connector_processing_step(integration, call, connectors, outcome);
    refresh_progress(progress)
}

/// The key under which the tokens of a merchant's connector account are
/// cached.
#[derive(Debug, PartialEq, Eq)]
pub struct CacheKey {
    pub merchant_id: String,
    pub connector_id: String,
}

impl View for CacheKey {
    type V = (Seq<char>, Seq<char>);

    open spec fn view(&self) -> (Seq<char>, Seq<char>) {
        (self.merchant_id@, self.connector_id@)
    }
}

/// Where the token step of a call stands.
#[derive(Debug, PartialEq, Eq)]
pub enum AccessTokenState {
    /// Nothing has happened yet.
    CheckSupport,
    /// The cache is being read.
    ReadCache,
    /// A refresh waits for the outcome of its request.
    Refresh(RefreshCall),
    /// The new token is being stored; the outcome of that does not matter.
    PersistBestEffort(AccessToken),
    /// The step is over.
    Done,
}

/// What the caller has to do next.
#[derive(Debug, PartialEq, Eq)]
pub enum AccessTokenAction {
    /// Read the token cached under the key and report it.
    ReadCache { key: CacheKey },
    /// Send the request and report the transport's outcome.
    Send { request: Request },
    /// Store the token under the key for `ttl` seconds and report when that is
    /// over, however it ended. A token was minted: count it.
    Persist { key: CacheKey, token: AccessToken, ttl: i64 },
    /// Nothing: this is the result of the step.
    Done(AddAccessTokenResult),
}

/// What happened since the last action.
#[derive(Debug, PartialEq, Eq)]
pub enum AccessTokenEvent {
    /// The step begins; the registry says whether the connector uses access
    /// tokens for the payment method at hand.
    Start { connector_supports_access_token: bool },
    /// The cache was read: the token, none, or a failure of the store.
    CacheRead(Result<Option<AccessToken>, ()>),
    /// The refresh request came back.
    Transport(TransportOutcome),
    /// The attempt to store the token is over.
    Persisted,
}

/// The state after an event, and the action to take.
#[derive(Debug, PartialEq, Eq)]
pub struct AccessTokenTransition {
    pub state: AccessTokenState,
    pub action: AccessTokenAction,
}

/// The result for a connector that uses no access tokens: no token, marked
/// by the placeholder error, and the flag off.
pub open spec fn is_unsupported_result(result: AddAccessTokenResult) -> bool {
    &&& !result.connector_supports_access_token
    &&& result.access_token_result matches Err(error)
    &&& error@ == ErrorResponse::default_view()
}

/// Whether `refresh` is the context of the refresh for `router_data`:
/// identifiers, credentials, payment method and access token carried over,
/// the token that is replaced as its request, and no outcome yet.
pub open spec fn is_refresh_context<F, Req, Res>(
    router_data: &RouterData<F, Req, Res>,
    old_access_token: Option<AccessToken>,
    refresh: RefreshRouterData,
) -> bool {
    &&& refresh.shares_fields_with(router_data)
    &&& refresh.request.old_access_token == old_access_token
    &&& refresh.response matches Err(error)
    &&& error@ == ErrorResponse::default_view()
}

/// The transition that the progress of a refresh leads to: one more request,
/// the storing of a new token under `key` for as long as it is valid, or the
/// end of the step with the processor's error.
pub open spec fn refresh_transition_post(
    key: (Seq<char>, Seq<char>),
    progress: Result<RefreshProgress, ApiErrorResponse>,
    r: Result<AccessTokenTransition, ApiErrorResponse>,
) -> bool {
    match progress {
        Err(e) => r == Err::<AccessTokenTransition, ApiErrorResponse>(e),
        Ok(RefreshProgress::Send { call, request }) => r == Ok::<
            AccessTokenTransition,
            ApiErrorResponse,
        >(
            AccessTokenTransition {
                state: AccessTokenState::Refresh(call),
                action: AccessTokenAction::Send { request },
            },
        ),
        Ok(RefreshProgress::Finished(Ok(access_token))) => {
            &&& r matches Ok(transition)
            &&& transition.state == AccessTokenState::PersistBestEffort(access_token)
            &&& transition.action matches AccessTokenAction::Persist { key: stored_key, token, ttl }
            &&& stored_key@ == key
            &&& token == access_token
            &&& ttl == access_token.expires
        },
        Ok(RefreshProgress::Finished(Err(error))) => r == Ok::<
            AccessTokenTransition,
            ApiErrorResponse,
        >(
            AccessTokenTransition {
                state: AccessTokenState::Done,
                action: AccessTokenAction::Done(
                    AddAccessTokenResult {
                        access_token_result: Err(error),
                        connector_supports_access_token: true,
                    },
                ),
            },
        ),
    }
}

/// Whether the token read from the cache must be replaced at time `now`.
pub open spec fn cached_token_is_stale(old_access_token: Option<AccessToken>, now: int) -> bool {
    match old_access_token {
        Some(access_token) => refresh_required(Some(&access_token), now),
        None => refresh_required(None, now),
    }
}

/// What one step of the token manager results in at time `now`.
///
/// - At the start: without support for access tokens the step is over, with
///   the placeholder error and the flag off; with it the cache is read.
/// - After the cache was read: a failure of the store is an internal
///   failure; a token that is still good is the result; otherwise the refresh
///   starts.
/// - After a refresh request came back: the refresh goes on.
/// - After the new token was stored, or could not be: the new token is the
///   result.
/// - An event that does not answer the last action is an internal failure.
pub open spec fn add_access_token_post<
    F,
    Req,
    Res,
    C: ConnectorIntegration<AccessTokenAuth, AccessTokenRequestData, AccessToken>,
>(
    integration: &C,
    connectors: &Connectors,
    router_data: &RouterData<F, Req, Res>,
    state: AccessTokenState,
    event: AccessTokenEvent,
    now: i64,
    r: Result<AccessTokenTransition, ApiErrorResponse>,
) -> bool {
    let key = (router_data.merchant_id@, router_data.connector@);
    match (state, event) {
        (
            AccessTokenState::CheckSupport,
            AccessTokenEvent::Start { connector_supports_access_token },
        ) => if connector_supports_access_token {
            &&& r matches Ok(transition)
            &&& transition.state == AccessTokenState::ReadCache
            &&& transition.action matches AccessTokenAction::ReadCache { key: read_key }
            &&& read_key@ == key
        } else {
            &&& r matches Ok(transition)
            &&& transition.state == AccessTokenState::Done
            &&& transition.action matches AccessTokenAction::Done(result)
            &&& is_unsupported_result(result)
        },
        (AccessTokenState::ReadCache, AccessTokenEvent::CacheRead(Err(_))) => r == Err::<
            AccessTokenTransition,
            ApiErrorResponse,
        >(ApiErrorResponse::InternalServerError),
        (AccessTokenState::ReadCache, AccessTokenEvent::CacheRead(Ok(old_access_token))) => {
            if cached_token_is_stale(old_access_token, now as int) {
                exists|refresh: RefreshRouterData, progress: Result<RefreshProgress, ApiErrorResponse>|
                    #![trigger is_refresh_context(router_data, old_access_token, refresh), refresh_transition_post(key, progress, r)]
                    is_refresh_context(router_data, old_access_token, refresh)
                        && refresh_started(integration, connectors, refresh, progress)
                        && refresh_transition_post(key, progress, r)
            } else {
                r == Ok::<AccessTokenTransition, ApiErrorResponse>(
                    AccessTokenTransition {
                        state: AccessTokenState::Done,
                        action: AccessTokenAction::Done(
                            AddAccessTokenResult {
                                access_token_result: Ok(old_access_token),
                                connector_supports_access_token: true,
                            },
                        ),
                    },
                )
            }
        },
        (AccessTokenState::Refresh(call), AccessTokenEvent::Transport(outcome)) => exists|
            progress: Result<RefreshProgress, ApiErrorResponse>,
        |
            #![trigger refresh_transition_post(key, progress, r)]
            refresh_continued(integration, connectors, call, outcome, progress)
                && refresh_transition_post(key, progress, r),
        (AccessTokenState::PersistBestEffort(access_token), AccessTokenEvent::Persisted) => r
            == Ok::<AccessTokenTransition, ApiErrorResponse>(
            AccessTokenTransition {
                state: AccessTokenState::Done,
                action: AccessTokenAction::Done(
                    AddAccessTokenResult {
                        access_token_result: Ok(Some(access_token)),
                        connector_supports_access_token: true,
                    },
                ),
            },
        ),
        _ => r == Err::<AccessTokenTransition, ApiErrorResponse>(
            ApiErrorResponse::InternalServerError,
        ),
    }
}

/// Whether `r` is what starting the refresh with context `refresh` gives.
pub open spec fn refresh_started<
    C: ConnectorIntegration<AccessTokenAuth, AccessTokenRequestData, AccessToken>,
>(
    integration: &C,
    connectors: &Connectors,
    refresh: RefreshRouterData,
    r: Result<RefreshProgress, ApiErrorResponse>,
) -> bool {
    exists|
        progress: Result<
            Progress<AccessTokenAuth, AccessTokenRequestData, AccessToken>,
            ConnectorError,
        >,
    |
        #[trigger] execute_post(
            integration,
            refresh,
            connectors,
            CallConnectorAction::Trigger,
            progress,
        ) && r == refresh_progress_of(progress)
}

/// Whether `r` is what carrying the refresh on with `outcome` gives.
pub open spec fn refresh_continued<
    C: ConnectorIntegration<AccessTokenAuth, AccessTokenRequestData, AccessToken>,
>(
    integration: &C,
    connectors: &Connectors,
    call: RefreshCall,
    outcome: TransportOutcome,
    r: Result<RefreshProgress, ApiErrorResponse>,
) -> bool {
    exists|
        progress: Result<
            Progress<AccessTokenAuth, AccessTokenRequestData, AccessToken>,
            ConnectorError,
        >,
    |
        #[trigger] continue_post(integration, call, connectors, outcome, progress) && r
            == refresh_progress_of(progress)
}

fn cache_key<F, Req, Res>(router_data: &RouterData<F, Req, Res>) -> (key: CacheKey)
    ensures
        key@ == (router_data.merchant_id@, router_data.connector@),
{
    CacheKey {
        merchant_id: router_data.merchant_id.clone(),
        connector_id: router_data.connector.clone(),
    }
}

fn refresh_transition<F, Req, Res>(
    router_data: &RouterData<F, Req, Res>,
    progress: Result<RefreshProgress, ApiErrorResponse>,
) -> (r: Result<AccessTokenTransition, ApiErrorResponse>)
    ensures
        refresh_transition_post((router_data.merchant_id@, router_data.connector@), progress, r),
{
    match progress {
        Err(e) => Err(e),
        Ok(RefreshProgress::Send { call, request }) => Ok(
            AccessTokenTransition {
                state: AccessTokenState::Refresh(call),
                action: AccessTokenAction::Send { request },
            },
        ),
        Ok(RefreshProgress::Finished(Ok(access_token))) => {
            let ttl: i64 = access_token.expires;
            let token = access_token.clone();
            Ok(
                AccessTokenTransition {
                    state: AccessTokenState::PersistBestEffort(access_token),
                    action: AccessTokenAction::Persist { key: cache_key(router_data), token, ttl },
                },
            )
        },
        Ok(RefreshProgress::Finished(Err(error))) => Ok(
            AccessTokenTransition {
                state: AccessTokenState::Done,
                action: AccessTokenAction::Done(
                    AddAccessTokenResult {
                        access_token_result: Err(error),
                        connector_supports_access_token: true,
                    },
                ),
            },
        ),
    }
}

/// Takes one step of the token manager at the given Unix time.
///
/// The step makes a valid access token available for the call that
/// `router_data` describes. It performs no I/O: it answers each event with
/// the next state and the action the caller has to take, until the action is
/// [`AccessTokenAction::Done`].
pub fn add_access_token_at<
    F,
    Req,
    Res,
    C: ConnectorIntegration<AccessTokenAuth, AccessTokenRequestData, AccessToken>,
>(
    integration: &C,
    connectors: &Connectors,
    router_data: &RouterData<F, Req, Res>,
    state: AccessTokenState,
    event: AccessTokenEvent,
    now: i64,
) -> (r: Result<AccessTokenTransition, ApiErrorResponse>)
    ensures
        add_access_token_post(integration, connectors, router_data, state, event, now, r),
{
    match (state, event) {
        (
            AccessTokenState::CheckSupport,
            AccessTokenEvent::Start { connector_supports_access_token },
        ) => {
            if connector_supports_access_token {
                Ok(
                    AccessTokenTransition {
                        state: AccessTokenState::ReadCache,
                        action: AccessTokenAction::ReadCache { key: cache_key(router_data) },
                    },
                )
            } else {
                Ok(
                    AccessTokenTransition {
                        state: AccessTokenState::Done,
                        action: AccessTokenAction::Done(
                            AddAccessTokenResult {
                                access_token_result: Err(ErrorResponse::default()),
                                connector_supports_access_token: false,
                            },
                        ),
                    },
                )
            }
        },
        (AccessTokenState::ReadCache, AccessTokenEvent::CacheRead(Err(_))) => Err(
            ApiErrorResponse::InternalServerError,
        ),
        (AccessTokenState::ReadCache, AccessTokenEvent::CacheRead(Ok(old_access_token))) => {
            if is_new_access_token_required_at(old_access_token.as_ref(), now) {
                let refresh_token_request_data = AccessTokenRequestData { old_access_token };
                let refresh_token_router_data: RefreshRouterData = router_data_type_conversion(
                    router_data,
                    refresh_token_request_data,
                    Err(ErrorResponse::default()),
                );
                let progress = refresh_connector_auth(
                    integration,
                    connectors,
                    refresh_token_router_data,
                );
                let r = refresh_transition(router_data, progress);
                proof {
                    assert(is_refresh_context(
                        router_data,
                        old_access_token,
                        refresh_token_router_data,
                    ));
                    assert(refresh_started(
                        integration,
                        connectors,
                        refresh_token_router_data,
                        progress,
                    ));
                }
                r
            } else {
                Ok(
                    AccessTokenTransition {
                        state: AccessTokenState::Done,
                        action: AccessTokenAction::Done(
                            AddAccessTokenResult {
                                access_token_result: Ok(old_access_token),
                                connector_supports_access_token: true,
                            },
                        ),
                    },
                )
            }
        },
        (AccessTokenState::Refresh(call), AccessTokenEvent::Transport(outcome)) => {
            let progress = continue_refresh_connector_auth(integration, connectors, call, outcome);
            let r = refresh_transition(router_data, progress);
            proof {
                assert(refresh_continued(integration, connectors, call, outcome, progress));
            }
            r
        },
        (AccessTokenState::PersistBestEffort(access_token), AccessTokenEvent::Persisted) => Ok(
            AccessTokenTransition {
                state: AccessTokenState::Done,
                action: AccessTokenAction::Done(
                    AddAccessTokenResult {
                        access_token_result: Ok(Some(access_token)),
                        connector_supports_access_token: true,
                    },
                ),
            },
        ),
        _ => Err(ApiErrorResponse::InternalServerError),
    }
}

/// Takes one step of the token manager at the current time.
///
/// The result is that of [`add_access_token_at`] for some reading of the
/// clock. Only the step after the cache was read looks at the clock.
pub fn add_access_token<
    F,
    Req,
    Res,
    C: ConnectorIntegration<AccessTokenAuth, AccessTokenRequestData, AccessToken>,
>(
    integration: &C,
    connectors: &Connectors,
    router_data: &RouterData<F, Req, Res>,
    state: AccessTokenState,
    event: AccessTokenEvent,
) -> (r: Result<AccessTokenTransition, ApiErrorResponse>)
    ensures
        exists|now: i64| #[trigger]
            add_access_token_post(integration, connectors, router_data, state, event, now, r),
{
    let now: i64 = unix_timestamp_now();
    add_access_token_at(integration, connectors, router_data, state, event, now)
}

/// The token cache after the store has carried out an action: storing a
/// token binds it to its key, and no other action writes.
pub open spec fn cache_after(
    cache: Map<(Seq<char>, Seq<char>), AccessToken>,
    action: AccessTokenAction,
) -> Map<(Seq<char>, Seq<char>), AccessToken> {
    match action {
        AccessTokenAction::Persist { key, token, ttl } => cache.insert(key@, token),
        _ => cache,
    }
}

/// Law: racing refreshes leave a valid token.
///
/// Two refreshes for the same cache key that both obtained a token both ask
/// for it to be stored. In whichever order the store carries the two writes
/// out, the key ends up bound to one of the two new tokens: the one written
/// last.
pub proof fn lemma_racing_refreshes_leave_a_valid_token(
    key: (Seq<char>, Seq<char>),
    cache: Map<(Seq<char>, Seq<char>), AccessToken>,
    first_token: AccessToken,
    second_token: AccessToken,
    first: Result<AccessTokenTransition, ApiErrorResponse>,
    second: Result<AccessTokenTransition, ApiErrorResponse>,
)
    requires
        refresh_transition_post(key, Ok(RefreshProgress::Finished(Ok(first_token))), first),
        refresh_transition_post(key, Ok(RefreshProgress::Finished(Ok(second_token))), second),
    ensures
        first matches Ok(first_transition) && second matches Ok(second_transition) && {
            let first_then_second = cache_after(
                cache_after(cache, first_transition.action),
                second_transition.action,
            );
            let second_then_first = cache_after(
                cache_after(cache, second_transition.action),
                first_transition.action,
            );
            &&& first_transition.state == AccessTokenState::PersistBestEffort(first_token)
            &&& second_transition.state == AccessTokenState::PersistBestEffort(second_token)
            &&& first_then_second.contains_key(key)
            &&& first_then_second[key] == second_token
            &&& second_then_first.contains_key(key)
            &&& second_then_first[key] == first_token
        },
{
}

/// Law: storing is best effort. Once a new token is being stored, the step
/// ends with that token as its result, whatever became of the write.
pub proof fn lemma_new_token_survives_the_store<
    F,
    Req,
    Res,
    C: ConnectorIntegration<AccessTokenAuth, AccessTokenRequestData, AccessToken>,
>(
    integration: &C,
    connectors: &Connectors,
    router_data: &RouterData<F, Req, Res>,
    access_token: AccessToken,
    now: i64,
    r: Result<AccessTokenTransition, ApiErrorResponse>,
)
    requires
        add_access_token_post(
            integration,
            connectors,
            router_data,
            AccessTokenState::PersistBestEffort(access_token),
            AccessTokenEvent::Persisted,
            now,
            r,
        ),
    ensures
        r matches Ok(transition) && transition.state == AccessTokenState::Done
            && transition.action == AccessTokenAction::Done(
            AddAccessTokenResult {
                access_token_result: Ok(Some(access_token)),
                connector_supports_access_token: true,
            },
        ),
{
}

} // verus!
