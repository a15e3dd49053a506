//! Completing a link: the callback that carries a state code and an
//! authorization code.
//!
//! The handshake is looked up by its state code. An expired one is deleted
//! and answered as if it had never been there. A live one has its code
//! exchanged; the token pair and the profile are then written and the
//! handshake is consumed, all or nothing.

use crate::oauth::{calls_view, token_answer_view, whoami_answer_view};
use crate::oauth::{AccessTokenError, AccessTokenResponse, AccessTokenResponseView};
use crate::oauth::{RemoteCall, RemoteCallView, WhoAmIResponse, WhoAmIResponseView, WhoAmiError};
use crate::oauth::NOT_FOUND_STATUS_CODE;
use crate::store::{update_db_access_token, update_db_user_stats, AuthRow, Store, StoreView};
use vstd::prelude::*;

verus! {

/// Why a callback did not complete the link.
#[derive(Debug, Clone, Copy, PartialEq, Eq, Structural)]
pub enum CallbackError {
    /// No handshake carries the state code.
    HandshakeNotFound,
    /// The handshake was past its expiry; it has been deleted.
    HandshakeExpired,
    /// The provider does not know the authorization code.
    AuthorizationCodeNotFound,
    /// The provider could not be reached, or rejected the request otherwise.
    UpstreamUnavailable,
    /// The store failed.
    StoreFailure,
}

/// What the callback does once it has looked for the handshake.
#[derive(Debug, Clone, Copy, PartialEq, Eq, Structural)]
pub enum LookupStep {
    /// No handshake: answer not found.
    NotFound,
    /// Expired: delete the handshake, commit, answer not found.
    Purge,
    /// Live: exchange the authorization code.
    Exchange,
}

/// The step that follows from what the lookup found.
pub open spec fn lookup_step_of(found: Option<AuthRow>) -> LookupStep {
    match found {
        Some(row) => if row.has_expired {
            LookupStep::Purge
        } else {
            LookupStep::Exchange
        },
        None => LookupStep::NotFound,
    }
}

/// Decides what to do with the handshake that the lookup found.
pub fn next_lookup_step(found: &Option<AuthRow>) -> (step: LookupStep)
    ensures
        step == lookup_step_of(*found),
{
    match found {
        Some(row) => {
            if row.has_expired {
                LookupStep::Purge
            } else {
                LookupStep::Exchange
            }
        },
        None => LookupStep::NotFound,
    }
}

/// How a failed exchange is surfaced: a not-found status of the provider
/// means that it does not know the code, anything else that it is
/// unavailable.
pub open spec fn exchange_failure_of(err: AccessTokenError) -> CallbackError {
    match err {
        AccessTokenError::StatusCodeError { expected, found } => if found
            == NOT_FOUND_STATUS_CODE {
            CallbackError::AuthorizationCodeNotFound
        } else {
            CallbackError::UpstreamUnavailable
        },
        AccessTokenError::ReqwestError => CallbackError::UpstreamUnavailable,
    }
}

/// Classifies a failed exchange of the authorization code.
pub fn exchange_failure(err: &AccessTokenError) -> (e: CallbackError)
    ensures
        e == exchange_failure_of(*err),
{
    match err {
        AccessTokenError::StatusCodeError { expected: _, found } => {
            if *found == NOT_FOUND_STATUS_CODE {
                CallbackError::AuthorizationCodeNotFound
            } else {
                CallbackError::UpstreamUnavailable
            }
        },
        AccessTokenError::ReqwestError => CallbackError::UpstreamUnavailable,
    }
}

/// Classifies a failed profile fetch: whatever went wrong, the provider
/// counts as unavailable.
pub fn profile_failure(err: &WhoAmiError) -> (e: CallbackError)
    ensures
        e == CallbackError::UpstreamUnavailable,
{
    CallbackError::UpstreamUnavailable
}

/// The status that a callback is answered with: 200 on success, 404 where the
/// handshake or the authorization code is unknown, 500 otherwise.
pub open spec fn status_of(outcome: Result<Seq<char>, CallbackError>) -> u16 {
    match outcome {
        Ok(_) => 200,
        Err(CallbackError::HandshakeNotFound) => 404,
        Err(CallbackError::HandshakeExpired) => 404,
        Err(CallbackError::AuthorizationCodeNotFound) => 404,
        Err(CallbackError::UpstreamUnavailable) => 500,
        Err(CallbackError::StoreFailure) => 500,
    }
}

/// The body that a callback is answered with.
pub open spec fn body_of(outcome: Result<Seq<char>, CallbackError>) -> Seq<char> {
    match outcome {
        Ok(name) => "Thank you "@ + name
            + " for successfully linking your Scioly.org account to Pi-Bot! You may now close this page."@,
        Err(CallbackError::AuthorizationCodeNotFound) => "authorization code not found"@,
        Err(CallbackError::UpstreamUnavailable) => "error contacting scioly.org"@,
        Err(_) => Seq::<char>::empty(),
    }
}

/// An answer over HTTP.
#[derive(Debug, Clone, PartialEq, Eq)]
pub struct HttpReply {
    pub status: u16,
    pub body: String,
}

/// The outcome of a callback by its text: the linked account's name, or the
/// failure.
pub open spec fn outcome_text(outcome: Result<String, CallbackError>) -> Result<
    Seq<char>,
    CallbackError,
> {
    match outcome {
        Ok(name) => Ok(name@),
        Err(e) => Err(e),
    }
}

/// Writes the answer to a callback that ended in `outcome`.
pub fn reply_for(outcome: &Result<String, CallbackError>) -> (reply: HttpReply)
    ensures
        reply.status == status_of(outcome_text(*outcome)),
        reply.body@ == body_of(outcome_text(*outcome)),
{
    match outcome {
        Ok(name) => {
            let mut body = String::from_str("Thank you ");
            body.append(name.as_str());
            body.append(
                " for successfully linking your Scioly.org account to Pi-Bot! You may now close this page.",
            );
            HttpReply { status: 200, body }
        },
        Err(CallbackError::HandshakeNotFound) => HttpReply { status: 404, body: String::new() },
        Err(CallbackError::HandshakeExpired) => HttpReply { status: 404, body: String::new() },
        Err(CallbackError::AuthorizationCodeNotFound) => HttpReply {
            status: 404,
            body: String::from_str("authorization code not found"),
        },
        Err(CallbackError::UpstreamUnavailable) => HttpReply {
            status: 500,
            body: String::from_str("error contacting scioly.org"),
        },
        Err(CallbackError::StoreFailure) => HttpReply { status: 500, body: String::new() },
    }
}

/// Where a callback stands between two steps.
#[derive(Debug, Clone, PartialEq, Eq)]
pub enum CallbackPhase {
    /// The handshake is being looked up.
    Lookup,
    /// An expired handshake is being deleted.
    Purging,
    /// The authorization code is being exchanged, for this identity.
    Exchanging(u64),
    /// The token pair is being written.
    StoringTokens { user: u64, access_token: String },
    /// The profile is being fetched.
    Fetching(u64),
    /// The profile is being written.
    StoringProfile { user: u64, username: String },
    /// The handshake is being consumed.
    Consuming { username: String },
    /// The callback has been answered.
    Finished,
}

/// What the world reports to a callback.
#[derive(Debug, PartialEq, Eq)]
pub enum CallbackEvent {
    /// The lookup of the handshake has ended.
    Found(Option<AuthRow>),
    /// The provider has answered the exchange of the code, or could not be
    /// reached.
    Exchanged(Result<AccessTokenResponse, AccessTokenError>),
    /// The provider has answered the profile fetch, or could not be reached.
    Fetched(Result<WhoAmIResponse, WhoAmiError>),
    /// What was asked of the store has been done.
    Done,
    /// The store failed.
    StoreFailed,
}

/// What a callback asks of the world next.
#[derive(Debug, PartialEq, Eq)]
pub enum CallbackAction {
    /// Look up the handshake by the state code of the request.
    FindHandshake,
    /// Delete the handshake of this identity and commit.
    Purge(u64),
    /// Exchange the authorization code of the request.
    Exchange,
    /// Replace the token record of this identity.
    StoreTokens(u64, AccessTokenResponse),
    /// Fetch the profile with this access token.
    FetchProfile(String),
    /// Overwrite the cached profile of this identity.
    StoreProfile(u64, WhoAmIResponse),
    /// Delete the handshake of this identity and commit.
    Consume(u64),
    /// Answer the request; whatever was written and not committed is rolled
    /// back.
    Reply(Result<String, CallbackError>),
}

/// The end of a callback that met a failed store or an event out of turn.
pub open spec fn callback_broken() -> (CallbackPhase, CallbackAction) {
    (CallbackPhase::Finished, CallbackAction::Reply(Err(CallbackError::StoreFailure)))
}

/// The phase that follows `phase` on `event`, and what is asked next.
pub open spec fn callback_next(phase: CallbackPhase, event: CallbackEvent) -> (
    CallbackPhase,
    CallbackAction,
) {
    match phase {
        CallbackPhase::Lookup => match event {
            CallbackEvent::Found(Some(row)) => if row.has_expired {
                (CallbackPhase::Purging, CallbackAction::Purge(row.discord_user_id))
            } else {
                (CallbackPhase::Exchanging(row.discord_user_id), CallbackAction::Exchange)
            },
            CallbackEvent::Found(None) => (
                CallbackPhase::Finished,
                CallbackAction::Reply(Err(CallbackError::HandshakeNotFound)),
            ),
            _ => callback_broken(),
        },
        CallbackPhase::Purging => match event {
            CallbackEvent::Done => (
                CallbackPhase::Finished,
                CallbackAction::Reply(Err(CallbackError::HandshakeExpired)),
            ),
            _ => callback_broken(),
        },
        CallbackPhase::Exchanging(user) => match event {
            CallbackEvent::Exchanged(Ok(pair)) => (
                CallbackPhase::StoringTokens { user, access_token: pair.access_token },
                CallbackAction::StoreTokens(user, pair),
            ),
            CallbackEvent::Exchanged(Err(e)) => (
                CallbackPhase::Finished,
                CallbackAction::Reply(Err(exchange_failure_of(e))),
            ),
            _ => callback_broken(),
        },
        CallbackPhase::StoringTokens { user, access_token } => match event {
            CallbackEvent::Done => (
                CallbackPhase::Fetching(user),
                CallbackAction::FetchProfile(access_token),
            ),
            _ => callback_broken(),
        },
        CallbackPhase::Fetching(user) => match event {
            CallbackEvent::Fetched(Ok(profile)) => (
                CallbackPhase::StoringProfile { user, username: profile.username },
                CallbackAction::StoreProfile(user, profile),
            ),
            CallbackEvent::Fetched(Err(_)) => (
                CallbackPhase::Finished,
                CallbackAction::Reply(Err(CallbackError::UpstreamUnavailable)),
            ),
            _ => callback_broken(),
        },
        CallbackPhase::StoringProfile { user, username } => match event {
            CallbackEvent::Done => (
                CallbackPhase::Consuming { username },
                CallbackAction::Consume(user),
            ),
            _ => callback_broken(),
        },
        CallbackPhase::Consuming { username } => match event {
            CallbackEvent::Done => (CallbackPhase::Finished, CallbackAction::Reply(Ok(username))),
            _ => callback_broken(),
        },
        CallbackPhase::Finished => callback_broken(),
    }
}

/// How a callback begins: by looking up the handshake.
pub fn callback_start() -> (first: (CallbackPhase, CallbackAction))
    ensures
        first == (CallbackPhase::Lookup, CallbackAction::FindHandshake),
{
    (CallbackPhase::Lookup, CallbackAction::FindHandshake)
}

/// Takes a callback one step further: from the phase it is in and what the
/// world reports, to the next phase and what to ask next. A failed store, or
/// an event that the phase does not wait for, ends the callback as a store
/// failure.
pub fn callback_step(phase: CallbackPhase, event: CallbackEvent) -> (next: (
    CallbackPhase,
    CallbackAction,
))
    ensures
        next == callback_next(phase, event),
{
    let broken = (CallbackPhase::Finished, CallbackAction::Reply(Err(CallbackError::StoreFailure)));
    match phase {
        CallbackPhase::Lookup => match event {
            CallbackEvent::Found(found) => match next_lookup_step(&found) {
                LookupStep::NotFound => (
                    CallbackPhase::Finished,
                    CallbackAction::Reply(Err(CallbackError::HandshakeNotFound)),
                ),
                LookupStep::Purge => {
                    let row = found.unwrap();
                    (CallbackPhase::Purging, CallbackAction::Purge(row.discord_user_id))
                },
                LookupStep::Exchange => {
                    let row = found.unwrap();
                    (CallbackPhase::Exchanging(row.discord_user_id), CallbackAction::Exchange)
                },
            },
            _ => broken,
        },
        CallbackPhase::Purging => match event {
            CallbackEvent::Done => (
                CallbackPhase::Finished,
                CallbackAction::Reply(Err(CallbackError::HandshakeExpired)),
            ),
            _ => broken,
        },
        CallbackPhase::Exchanging(user) => match event {
            CallbackEvent::Exchanged(Ok(pair)) => {
                let access_token = pair.access_token.clone();
                (
                    CallbackPhase::StoringTokens { user, access_token },
                    CallbackAction::StoreTokens(user, pair),
                )
            },
            CallbackEvent::Exchanged(Err(e)) => (
                CallbackPhase::Finished,
                CallbackAction::Reply(Err(exchange_failure(&e))),
            ),
            _ => broken,
        },
        CallbackPhase::StoringTokens { user, access_token } => match event {
            CallbackEvent::Done => (
                CallbackPhase::Fetching(user),
                CallbackAction::FetchProfile(access_token),
            ),
            _ => broken,
        },
        CallbackPhase::Fetching(user) => match event {
            CallbackEvent::Fetched(Ok(profile)) => {
                let username = profile.username.clone();
                (
                    CallbackPhase::StoringProfile { user, username },
                    CallbackAction::StoreProfile(user, profile),
                )
            },
            CallbackEvent::Fetched(Err(e)) => (
                CallbackPhase::Finished,
                CallbackAction::Reply(Err(profile_failure(&e))),
            ),
            _ => broken,
        },
        CallbackPhase::StoringProfile { user, username } => match event {
            CallbackEvent::Done => (
                CallbackPhase::Consuming { username },
                CallbackAction::Consume(user),
            ),
            _ => broken,
        },
        CallbackPhase::Consuming { username } => match event {
            CallbackEvent::Done => (CallbackPhase::Finished, CallbackAction::Reply(Ok(username))),
            _ => broken,
        },
        CallbackPhase::Finished => broken,
    }
}

/// Whether the callback finds a live handshake under `state`.
pub open spec fn finds_live_handshake(s: StoreView, state: Seq<char>) -> bool {
    s.code_in_use(state) && !s.handshake_expired(s.holder(state))
}

/// How a callback with the state code `state` ends, where `exchange` is what
/// the provider answers to the authorization code and `whoami` what it
/// answers to the profile fetch.
pub open spec fn callback_outcome(
    s: StoreView,
    state: Seq<char>,
    exchange: Result<AccessTokenResponseView, AccessTokenError>,
    whoami: Result<WhoAmIResponseView, WhoAmiError>,
) -> Result<Seq<char>, CallbackError> {
    if !s.code_in_use(state) {
        Err(CallbackError::HandshakeNotFound)
    } else if s.handshake_expired(s.holder(state)) {
        Err(CallbackError::HandshakeExpired)
    } else {
        match exchange {
            Err(e) => Err(exchange_failure_of(e)),
            Ok(_) => match whoami {
                Err(_) => Err(CallbackError::UpstreamUnavailable),
                Ok(profile) => Ok(profile.username),
            },
        }
    }
}

/// The store after that callback. An expired handshake is deleted. A
/// completed link leaves the token pair and the profile of the handshake's
/// owner and consumes the handshake. Every other ending leaves the store
/// as it was.
pub open spec fn store_after_callback(
    s: StoreView,
    state: Seq<char>,
    exchange: Result<AccessTokenResponseView, AccessTokenError>,
    whoami: Result<WhoAmIResponseView, WhoAmiError>,
) -> StoreView {
    if !s.code_in_use(state) {
        s
    } else if s.handshake_expired(s.holder(state)) {
        s.without_handshake(s.holder(state))
    } else {
        match (exchange, whoami) {
            (Ok(pair), Ok(profile)) => s.with_tokens(s.holder(state), pair).with_stats(
                s.holder(state),
                profile,
            ).without_handshake(s.holder(state)),
            _ => s,
        }
    }
}

/// The requests that the callback makes of the provider: none unless the
/// handshake is live, then the exchange of `code`, and the profile fetch with
/// the new access token where the exchange gave one.
pub open spec fn callback_calls(
    s: StoreView,
    state: Seq<char>,
    code: Seq<char>,
    exchange: Result<AccessTokenResponseView, AccessTokenError>,
) -> Seq<RemoteCallView> {
    if !finds_live_handshake(s, state) {
        Seq::empty()
    } else {
        match exchange {
            Err(_) => seq![RemoteCallView::ExchangeCode(code)],
            Ok(pair) => seq![
                RemoteCallView::ExchangeCode(code),
                RemoteCallView::FetchProfile(pair.access_token),
            ],
        }
    }
}

/// How a callback ended, and what it asked of the provider on the way.
#[derive(Debug, PartialEq, Eq)]
pub struct CallbackReport {
    /// The linked account's name, or the failure.
    pub outcome: Result<String, CallbackError>,
    pub calls: Vec<RemoteCall>,
}

/// Runs a callback with `state_hex` and `code_hex` against the store, step
/// by step. `exchange` is the provider's answer to the exchange of the code,
/// `whoami` its answer to the profile fetch; each is read only where the
/// request is made. What a failed callback has written is taken back.
pub fn authorize(
    store: &mut Store,
    state_hex: &str,
    code_hex: &str,
    exchange: Result<AccessTokenResponse, AccessTokenError>,
    whoami: Result<WhoAmIResponse, WhoAmiError>,
) -> (report: CallbackReport)
    requires
        old(store).wf(),
    ensures
        final(store).wf(),
        final(store)@ == store_after_callback(
            old(store)@,
            state_hex@,
            token_answer_view(exchange),
            whoami_answer_view(whoami),
        ),
        outcome_text(report.outcome) == callback_outcome(
            old(store)@,
            state_hex@,
            token_answer_view(exchange),
            whoami_answer_view(whoami),
        ),
        calls_view(report.calls@) == callback_calls(
            old(store)@,
            state_hex@,
            code_hex@,
            token_answer_view(exchange),
        ),
{
    let mut calls: Vec<RemoteCall> = Vec::new();
    assert(calls_view(calls@) =~= Seq::<RemoteCallView>::empty());
    let before = store.duplicate();
    let (phase, _) = callback_start();
    let found = store.find_auth_row(state_hex);
    let (phase, action) = callback_step(phase, CallbackEvent::Found(found));
    match action {
        CallbackAction::Exchange => {},
        CallbackAction::Purge(user) => {
            store.delete_auth_request(user);
            let (_, action) = callback_step(phase, CallbackEvent::Done);
            let outcome = match action {
                CallbackAction::Reply(outcome) => outcome,
                _ => unreached(),
            };
            return CallbackReport { outcome, calls };
        },
        CallbackAction::Reply(outcome) => {
            return CallbackReport { outcome, calls };
        },
        _ => unreached(),
    }
    calls.push(RemoteCall::ExchangeCode(String::from_str(code_hex)));
    assert(calls_view(calls@) =~= seq![RemoteCallView::ExchangeCode(code_hex@)]);
    let (phase, action) = callback_step(phase, CallbackEvent::Exchanged(exchange));
    match action {
        CallbackAction::StoreTokens(user, pair) => {
            update_db_access_token(store, user, &pair);
        },
        CallbackAction::Reply(outcome) => {
            return CallbackReport { outcome, calls };
        },
        _ => unreached(),
    }
    let (phase, action) = callback_step(phase, CallbackEvent::Done);
    match action {
        CallbackAction::FetchProfile(access_token) => {
            calls.push(RemoteCall::FetchProfile(access_token));
            assert(calls_view(calls@) =~= seq![
                RemoteCallView::ExchangeCode(code_hex@),
                RemoteCallView::FetchProfile(access_token@),
            ]);
        },
        _ => unreached(),
    }
    let (phase, action) = callback_step(phase, CallbackEvent::Fetched(whoami));
    match action {
        CallbackAction::StoreProfile(user, profile) => {
            update_db_user_stats(store, &profile, user);
        },
        CallbackAction::Reply(outcome) => {
            *store = before;
            return CallbackReport { outcome, calls };
        },
        _ => unreached(),
    }
    let (phase, action) = callback_step(phase, CallbackEvent::Done);
    match action {
        CallbackAction::Consume(user) => {
            store.delete_auth_request(user);
        },
        _ => unreached(),
    }
    let (_, action) = callback_step(phase, CallbackEvent::Done);
    match action {
        CallbackAction::Reply(outcome) => CallbackReport { outcome, calls },
        _ => unreached(),
    }
}

} // verus!
