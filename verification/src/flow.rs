//! The decisions of fetching a Kiro access token: use the cached token while
//! it is valid, refresh it through AWS SSO OIDC when it has expired (unless a
//! refresh failed less than 30 seconds ago), and fall back to letting
//! `kiro-cli whoami` refresh it when OIDC does not.
//!
//! The caller performs each `AccessAction` (database, HTTP, subprocess,
//! clock and the shared failure mark) and hands back what it observed as an
//! `AccessEvent`; `step` decides what comes next.

use vstd::prelude::*;
use crate::rfc3339::{UtcInstant, expired_at, is_expired_at, refresh_expiry, refresh_expiry_spec};
use crate::token::{
    AuthResultModel, KiroAuthResult, RefreshRequest, RefreshRequestModel, RefreshResponse,
    RefreshResponseModel, Registration, RegistrationModel, TokenData, TokenModel, opt_string_view,
    refresh_request, refresh_request_spec, refreshed_token, refreshed_token_spec,
};

verus! {

/// After a failed refresh, how long (in milliseconds) an expired token is
/// answered with nothing instead of another refresh attempt.
pub const REFRESH_FAIL_COOLDOWN_MS: u64 = 30_000;

/// Where a token fetch stands.
#[derive(Debug)]
pub enum AccessState {
    /// Waiting for the database to open for reading and writing.
    Opening,
    /// Waiting for the cached token.
    LoadingToken,
    /// The cached token has expired; waiting for the clock and the time of
    /// the last failed refresh.
    CheckingCooldown { token: TokenData },
    /// Waiting for the device registration.
    LoadingRegistration { token: TokenData, now_ms: u64 },
    /// Waiting for the OIDC reply.
    Refreshing { token: TokenData, now_ms: u64 },
    /// Waiting for the refreshed token to be stored and the failure mark cleared.
    Saving { token: TokenData },
    /// Waiting for the profile ARN that goes with a usable token.
    LoadingProfile { token: TokenData },
    /// The OIDC refresh did not happen; waiting for the profile ARN before
    /// falling back to `kiro-cli whoami`.
    FallbackProfile { now_ms: u64 },
    /// Waiting for `kiro-cli whoami` to run and the database to reopen read-only.
    Reopening { now_ms: u64, profile_arn: Option<String> },
    /// Waiting for the token as `kiro-cli whoami` left it.
    FallbackToken { now_ms: u64, profile_arn: Option<String> },
    /// Waiting for the failure mark to be recorded.
    RecordingFailure,
    /// Waiting for the failure mark to be cleared after the fallback worked.
    ClearingFailure { token: TokenData, profile_arn: Option<String> },
    /// Waiting for the profile ARN from the reopened database.
    FallbackLoadingProfile { token: TokenData, profile_arn: Option<String> },
    /// Finished.
    Done,
}

/// What the caller observed after performing an action.
#[derive(Debug)]
pub enum AccessEvent {
    /// Whether the database opened.
    Opened(bool),
    /// The stored token (none when it is missing or unreadable) and the
    /// current instant.
    TokenLoaded { token: Option<TokenData>, now: UtcInstant },
    /// The current time and the time of the last failed refresh, both in
    /// milliseconds since the Unix epoch (0: no recent failure).
    ClockRead { now_ms: u64, last_failure_ms: u64 },
    /// The stored device registration, if readable.
    RegistrationLoaded(Option<Registration>),
    /// The OIDC reply when the request succeeded and its body was readable,
    /// and the current instant.
    RefreshReplied { response: Option<RefreshResponse>, now: UtcInstant },
    /// The action finished.
    Completed,
    /// The stored profile ARN, if readable.
    ProfileLoaded(Option<String>),
}

/// What the caller is to do next.
#[derive(Debug)]
pub enum AccessAction {
    /// Open the database (read-only when asked).
    OpenDatabase { read_only: bool },
    /// Read the stored token and the current instant.
    ReadToken,
    /// Read the clock and the time of the last failed refresh.
    ReadClock,
    /// Read the stored device registration.
    ReadRegistration,
    /// Send this OIDC refresh request.
    SendRefresh(RefreshRequest),
    /// Store this refreshed token, then clear the failure mark.
    StoreRefreshed(TokenData),
    /// Read the stored profile ARN.
    ReadProfileArn,
    /// Close the database, run `kiro-cli whoami`, reopen the database read-only.
    RunWhoami,
    /// Mark a failed refresh at this time (milliseconds since the Unix epoch).
    RecordRefreshFailure(u64),
    /// Clear the failure mark.
    ClearRefreshFailure,
    /// Hand back this result.
    Finish(Option<KiroAuthResult>),
    /// The token lifetime in the OIDC reply puts its expiry out of the
    /// representable range (where the expiry arithmetic panics).
    ExpiryOutOfRange,
}

/// The contents of an `AccessState`.
pub enum StateModel {
    Opening,
    LoadingToken,
    CheckingCooldown { token: TokenModel },
    LoadingRegistration { token: TokenModel, now_ms: u64 },
    Refreshing { token: TokenModel, now_ms: u64 },
    Saving { token: TokenModel },
    LoadingProfile { token: TokenModel },
    FallbackProfile { now_ms: u64 },
    Reopening { now_ms: u64, profile_arn: Option<Seq<char>> },
    FallbackToken { now_ms: u64, profile_arn: Option<Seq<char>> },
    RecordingFailure,
    ClearingFailure { token: TokenModel, profile_arn: Option<Seq<char>> },
    FallbackLoadingProfile { token: TokenModel, profile_arn: Option<Seq<char>> },
    Done,
}

/// The contents of an `AccessEvent`.
pub enum EventModel {
    Opened(bool),
    TokenLoaded { token: Option<TokenModel>, now: UtcInstant },
    ClockRead { now_ms: u64, last_failure_ms: u64 },
    RegistrationLoaded(Option<RegistrationModel>),
    RefreshReplied { response: Option<RefreshResponseModel>, now: UtcInstant },
    Completed,
    ProfileLoaded(Option<Seq<char>>),
}

/// The contents of an `AccessAction`.
pub enum ActionModel {
    OpenDatabase { read_only: bool },
    ReadToken,
    ReadClock,
    ReadRegistration,
    SendRefresh(RefreshRequestModel),
    StoreRefreshed(TokenModel),
    ReadProfileArn,
    RunWhoami,
    RecordRefreshFailure(u64),
    ClearRefreshFailure,
    Finish(Option<AuthResultModel>),
    ExpiryOutOfRange,
}

impl View for AccessState {
    type V = StateModel;

    open spec fn view(&self) -> StateModel {
        match self {
            AccessState::Opening => StateModel::Opening,
            AccessState::LoadingToken => StateModel::LoadingToken,
            AccessState::CheckingCooldown { token } => StateModel::CheckingCooldown { token: token@ },
            AccessState::LoadingRegistration { token, now_ms } => StateModel::LoadingRegistration { token: token@, now_ms: *now_ms },
            AccessState::Refreshing { token, now_ms } => StateModel::Refreshing { token: token@, now_ms: *now_ms },
            AccessState::Saving { token } => StateModel::Saving { token: token@ },
            AccessState::LoadingProfile { token } => StateModel::LoadingProfile { token: token@ },
            AccessState::FallbackProfile { now_ms } => StateModel::FallbackProfile { now_ms: *now_ms },
            AccessState::Reopening { now_ms, profile_arn } => StateModel::Reopening {
                now_ms: *now_ms,
                profile_arn: opt_string_view(*profile_arn),
            },
            AccessState::FallbackToken { now_ms, profile_arn } => StateModel::FallbackToken {
                now_ms: *now_ms,
                profile_arn: opt_string_view(*profile_arn),
            },
            AccessState::RecordingFailure => StateModel::RecordingFailure,
            AccessState::ClearingFailure { token, profile_arn } => StateModel::ClearingFailure {
                token: token@,
                profile_arn: opt_string_view(*profile_arn),
            },
            AccessState::FallbackLoadingProfile { token, profile_arn } => StateModel::FallbackLoadingProfile {
                token: token@,
                profile_arn: opt_string_view(*profile_arn),
            },
            AccessState::Done => StateModel::Done,
        }
    }
}

/// The contents of an optional token record.
pub open spec fn opt_token_view(t: Option<TokenData>) -> Option<TokenModel> {
    match t {
        Some(x) => Some(x@),
        None => None,
    }
}

impl View for AccessEvent {
    type V = EventModel;

    open spec fn view(&self) -> EventModel {
        match self {
            AccessEvent::Opened(ok) => EventModel::Opened(*ok),
            AccessEvent::TokenLoaded { token, now } => EventModel::TokenLoaded {
                token: opt_token_view(*token),
                now: *now,
            },
            AccessEvent::ClockRead { now_ms, last_failure_ms } => EventModel::ClockRead {
                now_ms: *now_ms,
                last_failure_ms: *last_failure_ms,
            },
            AccessEvent::RegistrationLoaded(reg) => EventModel::RegistrationLoaded(match reg {
                Some(r) => Some(r@),
                None => None,
            }),
            AccessEvent::RefreshReplied { response, now } => EventModel::RefreshReplied {
                response: match response {
                    Some(r) => Some(r@),
                    None => None,
                },
                now: *now,
            },
            AccessEvent::Completed => EventModel::Completed,
            AccessEvent::ProfileLoaded(p) => EventModel::ProfileLoaded(opt_string_view(*p)),
        }
    }
}

impl View for AccessAction {
    type V = ActionModel;

    open spec fn view(&self) -> ActionModel {
        match self {
            AccessAction::OpenDatabase { read_only } => ActionModel::OpenDatabase { read_only: *read_only },
            AccessAction::ReadToken => ActionModel::ReadToken,
            AccessAction::ReadClock => ActionModel::ReadClock,
            AccessAction::ReadRegistration => ActionModel::ReadRegistration,
            AccessAction::SendRefresh(req) => ActionModel::SendRefresh(req@),
            AccessAction::StoreRefreshed(t) => ActionModel::StoreRefreshed(t@),
            AccessAction::ReadProfileArn => ActionModel::ReadProfileArn,
            AccessAction::RunWhoami => ActionModel::RunWhoami,
            AccessAction::RecordRefreshFailure(ms) => ActionModel::RecordRefreshFailure(*ms),
            AccessAction::ClearRefreshFailure => ActionModel::ClearRefreshFailure,
            AccessAction::Finish(res) => ActionModel::Finish(match res {
                Some(r) => Some(r@),
                None => None,
            }),
            AccessAction::ExpiryOutOfRange => ActionModel::ExpiryOutOfRange,
        }
    }
}

/// `a - b`, or 0 when `b` is larger.
pub open spec fn saturating_diff(a: u64, b: u64) -> int {
    if a >= b { a - b } else { 0 }
}

/// An expired token is not refreshed while the last failed refresh is less
/// than the cooldown old.
pub open spec fn in_cooldown(now_ms: u64, last_failure_ms: u64) -> bool {
    saturating_diff(now_ms, last_failure_ms) < REFRESH_FAIL_COOLDOWN_MS
}

/// The result handed back for a usable token.
pub open spec fn result_for(token: TokenModel, profile_arn: Option<Seq<char>>) -> AuthResultModel {
    AuthResultModel { access_token: token.access_token, profile_arn, expires_at: token.expires_at }
}

/// The first action: open the database for reading and writing.
pub open spec fn initial() -> (StateModel, ActionModel) {
    (StateModel::Opening, ActionModel::OpenDatabase { read_only: false })
}

/// Stop without a token.
pub open spec fn give_up() -> (StateModel, ActionModel) {
    (StateModel::Done, ActionModel::Finish(None))
}

/// What follows each state and observation. Any observation that does not
/// fit the state ends the fetch without a token.
pub open spec fn transition(s: StateModel, e: EventModel) -> (StateModel, ActionModel) {
    match (s, e) {
        (StateModel::Opening, EventModel::Opened(ok)) => if ok {
            (StateModel::LoadingToken, ActionModel::ReadToken)
        } else {
            give_up()
        },
        (StateModel::LoadingToken, EventModel::TokenLoaded { token, now }) => match token {
            None => give_up(),
            Some(t) => if !expired_at(t.expires_at, now) {
                (StateModel::LoadingProfile { token: t }, ActionModel::ReadProfileArn)
            } else {
                (StateModel::CheckingCooldown { token: t }, ActionModel::ReadClock)
            },
        },
        (StateModel::CheckingCooldown { token }, EventModel::ClockRead { now_ms, last_failure_ms }) =>
            if in_cooldown(now_ms, last_failure_ms) {
                give_up()
            } else {
                (StateModel::LoadingRegistration { token, now_ms }, ActionModel::ReadRegistration)
            },
        (StateModel::LoadingRegistration { token, now_ms }, EventModel::RegistrationLoaded(reg)) =>
            match reg {
                Some(r) => match refresh_request_spec(token, r) {
                    Some(req) => (StateModel::Refreshing { token, now_ms }, ActionModel::SendRefresh(req)),
                    None => (StateModel::FallbackProfile { now_ms }, ActionModel::ReadProfileArn),
                },
                None => (StateModel::FallbackProfile { now_ms }, ActionModel::ReadProfileArn),
            },
        (StateModel::Refreshing { token, now_ms }, EventModel::RefreshReplied { response, now }) =>
            match response {
                Some(resp) => match refresh_expiry_spec(now, resp.expires_in) {
                    Some(exp) => {
                        let fresh = refreshed_token_spec(token, resp, exp);
                        (StateModel::Saving { token: fresh }, ActionModel::StoreRefreshed(fresh))
                    },
                    None => (StateModel::Done, ActionModel::ExpiryOutOfRange),
                },
                None => (StateModel::FallbackProfile { now_ms }, ActionModel::ReadProfileArn),
            },
        (StateModel::Saving { token }, EventModel::Completed) =>
            (StateModel::LoadingProfile { token }, ActionModel::ReadProfileArn),
        (StateModel::LoadingProfile { token }, EventModel::ProfileLoaded(p)) =>
            (StateModel::Done, ActionModel::Finish(Some(result_for(token, p)))),
        (StateModel::FallbackProfile { now_ms }, EventModel::ProfileLoaded(p)) =>
            (StateModel::Reopening { now_ms, profile_arn: p }, ActionModel::RunWhoami),
        (StateModel::Reopening { now_ms, profile_arn }, EventModel::Opened(ok)) => if ok {
            (StateModel::FallbackToken { now_ms, profile_arn }, ActionModel::ReadToken)
        } else {
            (StateModel::RecordingFailure, ActionModel::RecordRefreshFailure(now_ms))
        },
        (StateModel::FallbackToken { now_ms, profile_arn }, EventModel::TokenLoaded { token, now }) =>
            match token {
                None => (StateModel::RecordingFailure, ActionModel::RecordRefreshFailure(now_ms)),
                Some(t) => if expired_at(t.expires_at, now) {
                    (StateModel::RecordingFailure, ActionModel::RecordRefreshFailure(now_ms))
                } else {
                    (StateModel::ClearingFailure { token: t, profile_arn }, ActionModel::ClearRefreshFailure)
                },
            },
        (StateModel::RecordingFailure, EventModel::Completed) => give_up(),
        (StateModel::ClearingFailure { token, profile_arn }, EventModel::Completed) =>
            (StateModel::FallbackLoadingProfile { token, profile_arn }, ActionModel::ReadProfileArn),
        (StateModel::FallbackLoadingProfile { token, profile_arn }, EventModel::ProfileLoaded(p)) => {
            let arn = match p {
                Some(a) => Some(a),
                None => profile_arn,
            };
            (StateModel::Done, ActionModel::Finish(Some(result_for(token, arn))))
        },
        _ => give_up(),
    }
}

/// Where a fetch starts: open the database for reading and writing.
pub fn start() -> (r: (AccessState, AccessAction))
    ensures
        (r.0@, r.1@) == initial(),
{
    (AccessState::Opening, AccessAction::OpenDatabase { read_only: false })
}

fn stop() -> (r: (AccessState, AccessAction))
    ensures
        (r.0@, r.1@) == give_up(),
{
    (AccessState::Done, AccessAction::Finish(None))
}

/// Decide what follows `state` after the caller observed `event`.
pub fn step(state: AccessState, event: AccessEvent) -> (r: (AccessState, AccessAction))
    ensures
        (r.0@, r.1@) == transition(state@, event@),
{
    match state {
        AccessState::Opening => match event {
            AccessEvent::Opened(ok) => if ok {
                (AccessState::LoadingToken, AccessAction::ReadToken)
            } else {
                stop()
            },
            _ => stop(),
        },
        AccessState::LoadingToken => match event {
            AccessEvent::TokenLoaded { token, now } => match token {
                None => stop(),
                Some(t) => if !is_expired_at(t.expires_at.as_str(), now) {
                    (AccessState::LoadingProfile { token: t }, AccessAction::ReadProfileArn)
                } else {
                    (AccessState::CheckingCooldown { token: t }, AccessAction::ReadClock)
                },
            },
            _ => stop(),
        },
        AccessState::CheckingCooldown { token } => match event {
            AccessEvent::ClockRead { now_ms, last_failure_ms } => {
                if now_ms.saturating_sub(last_failure_ms) < REFRESH_FAIL_COOLDOWN_MS {
                    stop()
                } else {
                    (AccessState::LoadingRegistration { token, now_ms }, AccessAction::ReadRegistration)
                }
            },
            _ => stop(),
        },
        AccessState::LoadingRegistration { token, now_ms } => match event {
            AccessEvent::RegistrationLoaded(reg) => match reg {
                Some(r) => match refresh_request(&token, &r) {
                    Some(req) => (AccessState::Refreshing { token, now_ms }, AccessAction::SendRefresh(req)),
                    None => (AccessState::FallbackProfile { now_ms }, AccessAction::ReadProfileArn),
                },
                None => (AccessState::FallbackProfile { now_ms }, AccessAction::ReadProfileArn),
            },
            _ => stop(),
        },
        AccessState::Refreshing { token, now_ms } => match event {
            AccessEvent::RefreshReplied { response, now } => match response {
                Some(resp) => match refresh_expiry(now, resp.expires_in) {
                    Some(exp) => {
                        let fresh = refreshed_token(&token, resp, exp);
                        let stored = fresh.duplicate();
                        (AccessState::Saving { token: fresh }, AccessAction::StoreRefreshed(stored))
                    },
                    None => (AccessState::Done, AccessAction::ExpiryOutOfRange),
                },
                None => (AccessState::FallbackProfile { now_ms }, AccessAction::ReadProfileArn),
            },
            _ => stop(),
        },
        AccessState::Saving { token } => match event {
            AccessEvent::Completed => (AccessState::LoadingProfile { token }, AccessAction::ReadProfileArn),
            _ => stop(),
        },
        AccessState::LoadingProfile { token } => match event {
            AccessEvent::ProfileLoaded(p) => (
                AccessState::Done,
                AccessAction::Finish(Some(KiroAuthResult {
                    access_token: token.access_token,
                    profile_arn: p,
                    expires_at: token.expires_at,
                })),
            ),
            _ => stop(),
        },
        AccessState::FallbackProfile { now_ms } => match event {
            AccessEvent::ProfileLoaded(p) => (
                AccessState::Reopening { now_ms, profile_arn: p },
                AccessAction::RunWhoami,
            ),
            _ => stop(),
        },
        AccessState::Reopening { now_ms, profile_arn } => match event {
            AccessEvent::Opened(ok) => if ok {
                (AccessState::FallbackToken { now_ms, profile_arn }, AccessAction::ReadToken)
            } else {
                (AccessState::RecordingFailure, AccessAction::RecordRefreshFailure(now_ms))
            },
            _ => stop(),
        },
        AccessState::FallbackToken { now_ms, profile_arn } => match event {
            AccessEvent::TokenLoaded { token, now } => match token {
                None => (AccessState::RecordingFailure, AccessAction::RecordRefreshFailure(now_ms)),
                Some(t) => if is_expired_at(t.expires_at.as_str(), now) {
                    (AccessState::RecordingFailure, AccessAction::RecordRefreshFailure(now_ms))
                } else {
                    (AccessState::ClearingFailure { token: t, profile_arn }, AccessAction::ClearRefreshFailure)
                },
            },
            _ => stop(),
        },
        AccessState::RecordingFailure => stop(),
        AccessState::ClearingFailure { token, profile_arn } => match event {
            AccessEvent::Completed => (
                AccessState::FallbackLoadingProfile { token, profile_arn },
                AccessAction::ReadProfileArn,
            ),
            _ => stop(),
        },
        AccessState::FallbackLoadingProfile { token, profile_arn } => match event {
            AccessEvent::ProfileLoaded(p) => {
                let arn = match p {
                    Some(a) => Some(a),
                    None => profile_arn,
                };
                (
                    AccessState::Done,
                    AccessAction::Finish(Some(KiroAuthResult {
                        access_token: token.access_token,
                        profile_arn: arn,
                        expires_at: token.expires_at,
                    })),
                )
            },
            _ => stop(),
        },
        AccessState::Done => stop(),
    }
}

/// The record persisted after an OIDC refresh is exactly the token the fetch
/// goes on to return.
pub proof fn law_stored_token_is_the_returned_token(s: StateModel, e: EventModel)
    ensures
        transition(s, e).1 matches ActionModel::StoreRefreshed(t) ==> transition(s, e).0 == (
        StateModel::Saving { token: t }),
{
}

/// After an OIDC refresh, the stored token carries the reply's access token,
/// the reply's refresh token when it rotated one (else the old refresh
/// token), and an expiry of the refresh time plus the reply's lifetime; every
/// other field is kept.
pub proof fn law_refresh_persists_the_reply(token: TokenModel, now_ms: u64, resp: RefreshResponseModel, now: UtcInstant)
    requires
        refresh_expiry_spec(now, resp.expires_in) is Some,
    ensures
        ({
            let exp = refresh_expiry_spec(now, resp.expires_in)->0;
            let (next, action) = transition(
                StateModel::Refreshing { token, now_ms },
                EventModel::RefreshReplied { response: Some(resp), now },
            );
            &&& action is StoreRefreshed
            &&& next == (StateModel::Saving { token: action->StoreRefreshed_0 })
            &&& action->StoreRefreshed_0.access_token == resp.access_token
            &&& action->StoreRefreshed_0.expires_at == exp
            &&& (resp.refresh_token matches Some(rt) ==> action->StoreRefreshed_0.refresh_token == rt)
            &&& (resp.refresh_token is None ==> action->StoreRefreshed_0.refresh_token == token.refresh_token)
            &&& action->StoreRefreshed_0.region == token.region
            &&& action->StoreRefreshed_0.start_url == token.start_url
            &&& action->StoreRefreshed_0.oauth_flow == token.oauth_flow
            &&& action->StoreRefreshed_0.scopes == token.scopes
        }),
{
}

/// How many steps, at most, a fetch still has to go from a state.
pub open spec fn steps_left(s: StateModel) -> nat {
    match s {
        StateModel::Opening => 12,
        StateModel::LoadingToken => 11,
        StateModel::CheckingCooldown { .. } => 10,
        StateModel::LoadingRegistration { .. } => 9,
        StateModel::Refreshing { .. } => 8,
        StateModel::FallbackProfile { .. } => 7,
        StateModel::Reopening { .. } => 6,
        StateModel::FallbackToken { .. } => 5,
        StateModel::ClearingFailure { .. } => 4,
        StateModel::Saving { .. } => 3,
        StateModel::FallbackLoadingProfile { .. } => 3,
        StateModel::LoadingProfile { .. } => 2,
        StateModel::RecordingFailure => 1,
        StateModel::Done => 0,
    }
}

/// Every fetch ends: each step from an unfinished state moves to a state
/// with fewer steps left, so a fetch is over after at most twelve steps.
pub proof fn law_every_fetch_ends(s: StateModel, e: EventModel)
    requires
        !(s is Done),
    ensures
        steps_left(transition(s, e).0) < steps_left(s),
{
}

/// The state a fetch is in after the observations `es`, starting from `s`.
pub open spec fn after(s: StateModel, es: Seq<EventModel>) -> StateModel
    decreases es.len(),
{
    if es.len() == 0 {
        s
    } else {
        after(transition(s, es[0]).0, es.drop_first())
    }
}

/// Each observation takes a step off what is left, down to nothing.
pub proof fn lemma_steps_left_after(s: StateModel, es: Seq<EventModel>)
    ensures
        es.len() >= steps_left(s) ==> steps_left(after(s, es)) == 0,
        es.len() < steps_left(s) ==> steps_left(after(s, es)) <= steps_left(s) - es.len(),
    decreases es.len(),
{
    if es.len() > 0 {
        let next = transition(s, es[0]).0;
        if !(s is Done) {
            law_every_fetch_ends(s, es[0]);
        }
        lemma_steps_left_after(next, es.drop_first());
    }
}

/// Whatever the caller observes, a fetch is over after at most twelve
/// observations.
pub proof fn law_fetch_ends_within_twelve_steps(es: Seq<EventModel>)
    requires
        es.len() >= 12,
    ensures
        after(initial().0, es) is Done,
{
    lemma_steps_left_after(initial().0, es);
}

/// A finished fetch stays finished and hands back nothing more.
pub proof fn law_done_is_final(e: EventModel)
    ensures
        transition(StateModel::Done, e) == give_up(),
{
}

/// A cached token that is still valid is used as it is: no refresh, no clock
/// check, only its profile ARN is read.
pub proof fn law_valid_token_is_used_without_refresh(t: TokenModel, now: UtcInstant)
    requires
        !expired_at(t.expires_at, now),
    ensures
        transition(StateModel::LoadingToken, EventModel::TokenLoaded { token: Some(t), now }) == (
            StateModel::LoadingProfile { token: t },
            ActionModel::ReadProfileArn,
        ),
{
}

/// An expired token is never refreshed within 30 seconds of a failed
/// refresh: the fetch ends without a token and without any request.
pub proof fn law_cooldown_suppresses_refresh(t: TokenModel, now_ms: u64, last_failure_ms: u64)
    requires
        now_ms < last_failure_ms + REFRESH_FAIL_COOLDOWN_MS,
    ensures
        transition(
            StateModel::CheckingCooldown { token: t },
            EventModel::ClockRead { now_ms, last_failure_ms },
        ) == give_up(),
{
}

/// Refresh requests only go to `https://oidc.<region>.amazonaws.com/token`
/// for a well-formed region (so a hostile registration cannot pick the host),
/// and carry the registration's credentials and the token's refresh token.
pub proof fn law_refresh_goes_to_confined_host(s: StateModel, e: EventModel)
    requires
        transition(s, e).1 is SendRefresh,
    ensures
        ({
            let req = transition(s, e).1->SendRefresh_0;
            &&& s matches StateModel::LoadingRegistration { token, .. }
            &&& e matches EventModel::RegistrationLoaded(Some(reg))
            &&& req.client_id == reg.client_id
            &&& req.client_secret == reg.client_secret
            &&& req.refresh_token == token.refresh_token
            &&& exists|region: Seq<char>|
                crate::region::region_ok(region) && req.endpoint == crate::token::oidc_endpoint_url(region)
        }),
{
    if let (StateModel::LoadingRegistration { token, now_ms }, EventModel::RegistrationLoaded(Some(reg))) = (s, e) {
        crate::token::law_oidc_region_is_well_formed(reg.region);
        let region = crate::token::oidc_region(reg.region)->0;
        assert(crate::region::region_ok(region));
    }
}

/// A registration whose region is set but malformed never leads to an OIDC
/// request: the fetch goes straight to the `kiro-cli whoami` fallback.
pub proof fn law_malformed_region_is_refused(t: TokenModel, now_ms: u64, reg: RegistrationModel)
    requires
        reg.region.len() > 0,
        !crate::region::region_ok(reg.region),
    ensures
        transition(
            StateModel::LoadingRegistration { token: t, now_ms },
            EventModel::RegistrationLoaded(Some(reg)),
        ) == (StateModel::FallbackProfile { now_ms }, ActionModel::ReadProfileArn),
{
}

/// A token is handed back only from a state that holds it, with that
/// token's access token and expiry.
pub proof fn law_only_held_tokens_are_returned(s: StateModel, e: EventModel)
    requires
        transition(s, e).1 matches ActionModel::Finish(Some(_)),
    ensures
        ({
            let res = transition(s, e).1->Finish_0->0;
            ||| s matches StateModel::LoadingProfile { token } && res.access_token == token.access_token
                && res.expires_at == token.expires_at
            ||| s matches StateModel::FallbackLoadingProfile { token, .. } && res.access_token
                == token.access_token && res.expires_at == token.expires_at
        }),
{
}

/// The tokens a fetch goes on to return come from exactly three places: the
/// cached token checked as not expired, the token just obtained from OIDC
/// (stored first), or the token `kiro-cli whoami` left, checked as not expired.
pub proof fn law_returned_tokens_are_fresh(s: StateModel, e: EventModel)
    ensures
        transition(s, e).0 matches StateModel::LoadingProfile { token } ==> {
            ||| s is LoadingToken && (e matches EventModel::TokenLoaded { token: Some(t), now } && t == token
                && !expired_at(token.expires_at, now))
            ||| e is Completed && (s matches StateModel::Saving { token: t } && t == token)
        },
        transition(s, e).0 matches StateModel::Saving { token } ==> {
            &&& s matches StateModel::Refreshing { token: old, .. }
            &&& e matches EventModel::RefreshReplied { response: Some(resp), now }
            &&& refresh_expiry_spec(now, resp.expires_in) == Some(token.expires_at)
            &&& token == refreshed_token_spec(old, resp, token.expires_at)
        },
        transition(s, e).0 matches StateModel::ClearingFailure { token, .. } ==> {
            &&& s is FallbackToken
            &&& e matches EventModel::TokenLoaded { token: Some(t), now }
            &&& t == token
            &&& !expired_at(token.expires_at, now)
        },
        transition(s, e).0 matches StateModel::FallbackLoadingProfile { token, .. } ==> {
            e is Completed && (s matches StateModel::ClearingFailure { token: t, .. } && t == token)
        },
{
}

/// The failure mark is set only when the `kiro-cli whoami` fallback did not
/// yield a valid token (the database did not reopen, the token was missing, or
/// it was still expired), and then to the time read when the expiry was found;
/// it is cleared only after a refresh through OIDC was stored or the fallback
/// produced a valid token.
pub proof fn law_failure_mark_follows_outcomes(s: StateModel, e: EventModel)
    ensures
        transition(s, e).1 matches ActionModel::RecordRefreshFailure(ms) ==> {
            ||| s matches StateModel::Reopening { now_ms, .. } && now_ms == ms && e == EventModel::Opened(false)
            ||| s matches StateModel::FallbackToken { now_ms, .. } && now_ms == ms && (e matches EventModel::TokenLoaded {
                token,
                now,
            } && (token matches Some(t) ==> expired_at(t.expires_at, now)))
        },
        transition(s, e).1 is ClearRefreshFailure ==> {
            &&& s is FallbackToken
            &&& e matches EventModel::TokenLoaded { token: Some(t), now } && !expired_at(t.expires_at, now)
        },
        transition(s, e).1 is StoreRefreshed ==> {
            s is Refreshing && (e matches EventModel::RefreshReplied { response: Some(_), .. })
        },
{
}

/// Once a refresh has been attempted and handed over to the `kiro-cli whoami`
/// fallback, the fetch never ends without a token unless it first records the
/// failure (at the time read when the expiry was found): every early exit arms
/// the cooldown, so a dead token cannot drive a retry storm.
pub proof fn law_failed_fallback_arms_cooldown(s: StateModel, e: EventModel)
    requires
        match (s, e) {
            (StateModel::FallbackProfile { .. }, EventModel::ProfileLoaded(_)) => true,
            (StateModel::Reopening { .. }, EventModel::Opened(_)) => true,
            (StateModel::FallbackToken { .. }, EventModel::TokenLoaded { .. }) => true,
            _ => false,
        },
    ensures
        !(transition(s, e).1 is Finish),
        transition(s, e).0 is RecordingFailure ==> transition(s, e).1 == ActionModel::RecordRefreshFailure(
            match s {
                StateModel::Reopening { now_ms, .. } => now_ms,
                StateModel::FallbackToken { now_ms, .. } => now_ms,
                _ => 0,
            },
        ),
        transition(s, e).0 is RecordingFailure || transition(s, e).0 is FallbackToken || transition(s, e).0 is Reopening
            || transition(s, e).0 is ClearingFailure,
{
}

/// After the failure is recorded, the fetch ends without a token.
pub proof fn law_recorded_failure_ends_fetch()
    ensures
        transition(StateModel::RecordingFailure, EventModel::Completed) == give_up(),
{
}

} // verus!
