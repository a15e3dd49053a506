//! Reading a profile: the cached snapshot while it is fresh, a refreshed one
//! once it is stale.
//!
//! A snapshot is stale when it is older than the threshold on the store's
//! clock. A stale read takes the token pair of the identity, renews it first
//! where the access token has expired, fetches the profile and overwrites the
//! snapshot. Whatever fails on the way leaves the store as it was.

use crate::oauth::{calls_view, token_answer_view, whoami_answer_view};
use crate::oauth::{AccessTokenError, AccessTokenResponse, AccessTokenResponseView};
use crate::oauth::{RemoteCall, RemoteCallView, WhoAmIResponse, WhoAmIResponseView, WhoAmiError};
use crate::store::{cached_as, snapshot_of, update_db_access_token, update_db_user_stats};
use crate::store::{ProfileCache, ProfileCacheView, Store, StoreView, TokenPair};
use vstd::prelude::*;

verus! {

/// The age in seconds beyond which a snapshot is refreshed, unless the
/// caller sets another.
pub const DEFAULT_STALENESS_SECS: u64 = 60;

/// Whether a snapshot written at `updated_at` is stale at `now`: it is older
/// than `threshold` seconds.
pub open spec fn is_stale_at(now: u64, updated_at: u64, threshold: u64) -> bool {
    now - updated_at > threshold
}

/// Tells whether a snapshot written at `updated_at` is stale at `now`.
pub fn is_stale(now: u64, updated_at: u64, threshold: u64) -> (stale: bool)
    ensures
        stale == is_stale_at(now, updated_at, threshold),
{
    now > updated_at && now - updated_at > threshold
}

/// Why a read gave no snapshot.
#[derive(Debug, Clone, Copy, PartialEq, Eq, Structural)]
pub enum ReadError {
    /// The identity has no token record.
    NotLinked,
    /// The provider rejected the refresh token, and nothing is cached.
    RefreshFailed,
    /// The provider could not be reached, or its answer could not be read.
    Transport,
    /// The provider rejected the profile fetch.
    UpstreamRejected { expected: u16, found: u16 },
    /// The store failed.
    StoreFailure,
}

/// Where a snapshot that is handed out comes from.
#[derive(Debug, Clone, Copy, PartialEq, Eq, Structural)]
pub enum Freshness {
    /// From the cache, within the threshold.
    Cached,
    /// Fetched from the provider by this read.
    Refreshed,
    /// From the cache though stale: the provider rejected the refresh token.
    Stale,
}

/// A snapshot that a read hands out.
#[derive(Debug, Clone, PartialEq, Eq)]
pub struct ProfileRead {
    pub snapshot: ProfileCache,
    pub freshness: Freshness,
}

/// A snapshot that a read hands out, by its text.
pub ghost struct ProfileReadView {
    pub snapshot: ProfileCacheView,
    pub freshness: Freshness,
}

impl View for ProfileRead {
    type V = ProfileReadView;

    open spec fn view(&self) -> ProfileReadView {
        ProfileReadView { snapshot: self.snapshot@, freshness: self.freshness }
    }
}

/// What a read does once it has looked for the snapshot.
#[derive(Debug, Clone, Copy, PartialEq, Eq, Structural)]
pub enum ReadStep {
    /// The snapshot is fresh: hand it out.
    Serve,
    /// There is none, or it is stale: look up the token pair.
    LookUpToken,
}

/// When a snapshot was written, if there is one.
pub open spec fn written_at(cached: Option<ProfileCache>) -> Option<u64> {
    match cached {
        Some(snapshot) => Some(snapshot.updated_at),
        None => None,
    }
}

/// The step that follows from when the snapshot was written.
pub open spec fn read_step_of(updated_at: Option<u64>, now: u64, threshold: u64) -> ReadStep {
    match updated_at {
        Some(t) => if is_stale_at(now, t, threshold) {
            ReadStep::LookUpToken
        } else {
            ReadStep::Serve
        },
        None => ReadStep::LookUpToken,
    }
}

/// Decides whether the snapshot that the lookup found can be handed out.
pub fn next_read_step(cached: &Option<ProfileCache>, now: u64, threshold: u64) -> (step: ReadStep)
    ensures
        step == read_step_of(written_at(*cached), now, threshold),
{
    match cached {
        Some(snapshot) => {
            if is_stale(now, snapshot.updated_at, threshold) {
                ReadStep::LookUpToken
            } else {
                ReadStep::Serve
            }
        },
        None => ReadStep::LookUpToken,
    }
}

/// What a stale read does once it has looked for the token pair.
#[derive(Debug, Clone, Copy, PartialEq, Eq, Structural)]
pub enum TokenStep {
    /// No token record: the identity is not linked.
    NotLinked,
    /// The access token has expired: exchange the refresh token first.
    Refresh,
    /// The access token is valid: fetch the profile with it.
    Fetch,
}

/// Whether a lookup found a token pair, and whether its access token has
/// expired.
pub open spec fn token_expiry_found(pair: Option<TokenPair>) -> Option<bool> {
    match pair {
        Some(p) => Some(p.has_expired),
        None => None,
    }
}

/// The step that follows from what the token lookup found.
pub open spec fn token_step_of(found: Option<bool>) -> TokenStep {
    match found {
        Some(has_expired) => if has_expired {
            TokenStep::Refresh
        } else {
            TokenStep::Fetch
        },
        None => TokenStep::NotLinked,
    }
}

/// Decides what to do with the token pair that the lookup found.
pub fn next_token_step(pair: &Option<TokenPair>) -> (step: TokenStep)
    ensures
        step == token_step_of(token_expiry_found(*pair)),
{
    match pair {
        Some(p) => {
            if p.has_expired {
                TokenStep::Refresh
            } else {
                TokenStep::Fetch
            }
        },
        None => TokenStep::NotLinked,
    }
}

/// How a failed refresh ends the read. A rejection by the provider falls back
/// on the cached snapshot and fails only where there is none; a request that
/// did not get through fails the read.
pub open spec fn refresh_failure_of(err: AccessTokenError, cached: Option<ProfileCacheView>)
    -> Result<ProfileReadView, ReadError> {
    match err {
        AccessTokenError::StatusCodeError { expected, found } => match cached {
            Some(snapshot) => Ok(ProfileReadView { snapshot, freshness: Freshness::Stale }),
            None => Err(ReadError::RefreshFailed),
        },
        AccessTokenError::ReqwestError => Err(ReadError::Transport),
    }
}

/// A snapshot by its text, if there is one.
pub open spec fn cached_view(cached: Option<ProfileCache>) -> Option<ProfileCacheView> {
    match cached {
        Some(snapshot) => Some(snapshot@),
        None => None,
    }
}

/// A read's outcome by its text.
pub open spec fn read_view(outcome: Result<ProfileRead, ReadError>) -> Result<
    ProfileReadView,
    ReadError,
> {
    match outcome {
        Ok(read) => Ok(read@),
        Err(e) => Err(e),
    }
}

/// How a failed refresh ends the read, as a value.
pub open spec fn refresh_failure_as(err: AccessTokenError, cached: Option<ProfileCache>) -> Result<
    ProfileRead,
    ReadError,
> {
    match err {
        AccessTokenError::StatusCodeError { expected, found } => match cached {
            Some(snapshot) => Ok(ProfileRead { snapshot, freshness: Freshness::Stale }),
            None => Err(ReadError::RefreshFailed),
        },
        AccessTokenError::ReqwestError => Err(ReadError::Transport),
    }
}

/// Ends a read whose refresh failed with `err`; `cached` is the snapshot
/// that the read found, stale or not.
pub fn refresh_failure(err: &AccessTokenError, cached: Option<ProfileCache>) -> (outcome: Result<
    ProfileRead,
    ReadError,
>)
    ensures
        outcome == refresh_failure_as(*err, cached),
        read_view(outcome) == refresh_failure_of(*err, cached_view(cached)),
{
    match err {
        AccessTokenError::StatusCodeError { expected: _, found: _ } => match cached {
            Some(snapshot) => Ok(ProfileRead { snapshot, freshness: Freshness::Stale }),
            None => Err(ReadError::RefreshFailed),
        },
        AccessTokenError::ReqwestError => Err(ReadError::Transport),
    }
}

/// How a failed profile fetch is surfaced.
pub open spec fn fetch_failure_of(err: WhoAmiError) -> ReadError {
    match err {
        WhoAmiError::StatusCodeError { expected, found } => ReadError::UpstreamRejected {
            expected,
            found,
        },
        WhoAmiError::ReqwestError => ReadError::Transport,
    }
}

/// Classifies a failed profile fetch.
pub fn fetch_failure(err: &WhoAmiError) -> (e: ReadError)
    ensures
        e == fetch_failure_of(*err),
{
    match err {
        WhoAmiError::StatusCodeError { expected, found } => ReadError::UpstreamRejected {
            expected: *expected,
            found: *found,
        },
        WhoAmiError::ReqwestError => ReadError::Transport,
    }
}

/// Where a read stands between two steps.
#[derive(Debug, Clone, PartialEq, Eq)]
pub enum ReadPhase {
    /// The snapshot is being looked up.
    Snapshot,
    /// The token pair is being looked up.
    Token { cached: Option<ProfileCache>, now: u64 },
    /// The refresh token is being exchanged.
    Refreshing { cached: Option<ProfileCache>, now: u64 },
    /// The new token pair is being written.
    StoringTokens { access_token: String, now: u64 },
    /// The profile is being fetched.
    Fetching { now: u64 },
    /// The profile is being written.
    StoringProfile { read: ProfileRead },
    /// The read has been answered.
    Finished,
}

/// What the world reports to a read.
#[derive(Debug, PartialEq, Eq)]
pub enum ReadEvent {
    /// The lookup of the snapshot has ended, at this time on the store's
    /// clock.
    Snapshot { cached: Option<ProfileCache>, now: u64 },
    /// The lookup of the token pair has ended.
    Token(Option<TokenPair>),
    /// The provider has answered the exchange of the refresh token, or could
    /// not be reached.
    Refreshed(Result<AccessTokenResponse, AccessTokenError>),
    /// The provider has answered the profile fetch, or could not be reached.
    Fetched(Result<WhoAmIResponse, WhoAmiError>),
    /// What was asked of the store has been done.
    Done,
    /// The store failed.
    StoreFailed,
}

/// What a read asks of the world next.
#[derive(Debug, PartialEq, Eq)]
pub enum ReadAction {
    /// Look up the cached profile, and read the store's clock.
    FindSnapshot,
    /// Look up the token pair.
    FindToken,
    /// Exchange this refresh token.
    Refresh(String),
    /// Replace the token record.
    StoreTokens(AccessTokenResponse),
    /// Fetch the profile with this access token.
    FetchProfile(String),
    /// Overwrite the cached profile and commit.
    StoreProfile(WhoAmIResponse),
    /// Answer the read; whatever was written and not committed is rolled
    /// back.
    Reply(Result<ProfileRead, ReadError>),
}

/// The end of a read that met a failed store or an event out of turn.
pub open spec fn read_broken() -> (ReadPhase, ReadAction) {
    (ReadPhase::Finished, ReadAction::Reply(Err(ReadError::StoreFailure)))
}

/// The phase that follows `phase` on `event`, and what is asked next.
pub open spec fn read_next(phase: ReadPhase, event: ReadEvent, threshold: u64) -> (
    ReadPhase,
    ReadAction,
) {
    match phase {
        ReadPhase::Snapshot => match event {
            ReadEvent::Snapshot { cached, now } => match cached {
                Some(snapshot) => if is_stale_at(now, snapshot.updated_at, threshold) {
                    (ReadPhase::Token { cached, now }, ReadAction::FindToken)
                } else {
                    (
                        ReadPhase::Finished,
                        ReadAction::Reply(
                            Ok(ProfileRead { snapshot, freshness: Freshness::Cached }),
                        ),
                    )
                },
                None => (ReadPhase::Token { cached, now }, ReadAction::FindToken),
            },
            _ => read_broken(),
        },
        ReadPhase::Token { cached, now } => match event {
            ReadEvent::Token(Some(pair)) => if pair.has_expired {
                (ReadPhase::Refreshing { cached, now }, ReadAction::Refresh(pair.refresh_token))
            } else {
                (ReadPhase::Fetching { now }, ReadAction::FetchProfile(pair.access_token))
            },
            ReadEvent::Token(None) => (
                ReadPhase::Finished,
                ReadAction::Reply(Err(ReadError::NotLinked)),
            ),
            _ => read_broken(),
        },
        ReadPhase::Refreshing { cached, now } => match event {
            ReadEvent::Refreshed(Ok(pair)) => (
                ReadPhase::StoringTokens { access_token: pair.access_token, now },
                ReadAction::StoreTokens(pair),
            ),
            ReadEvent::Refreshed(Err(e)) => (
                ReadPhase::Finished,
                ReadAction::Reply(refresh_failure_as(e, cached)),
            ),
            _ => read_broken(),
        },
        ReadPhase::StoringTokens { access_token, now } => match event {
            ReadEvent::Done => (ReadPhase::Fetching { now }, ReadAction::FetchProfile(access_token)),
            _ => read_broken(),
        },
        ReadPhase::Fetching { now } => match event {
            ReadEvent::Fetched(Ok(profile)) => (
                ReadPhase::StoringProfile {
                    read: ProfileRead {
                        snapshot: cached_as(profile, now),
                        freshness: Freshness::Refreshed,
                    },
                },
                ReadAction::StoreProfile(profile),
            ),
            ReadEvent::Fetched(Err(e)) => (
                ReadPhase::Finished,
                ReadAction::Reply(Err(fetch_failure_of(e))),
            ),
            _ => read_broken(),
        },
        ReadPhase::StoringProfile { read } => match event {
            ReadEvent::Done => (ReadPhase::Finished, ReadAction::Reply(Ok(read))),
            _ => read_broken(),
        },
        ReadPhase::Finished => read_broken(),
    }
}

/// How a read begins: by looking up the snapshot.
pub fn read_start() -> (first: (ReadPhase, ReadAction))
    ensures
        first == (ReadPhase::Snapshot, ReadAction::FindSnapshot),
{
    (ReadPhase::Snapshot, ReadAction::FindSnapshot)
}

/// Takes a read one step further: from the phase it is in and what the
/// world reports, to the next phase and what to ask next. A snapshot older
/// than `threshold` seconds is refreshed. A failed store, or an event that
/// the phase does not wait for, ends the read as a store failure.
pub fn read_step(phase: ReadPhase, event: ReadEvent, threshold: u64) -> (next: (ReadPhase, ReadAction))
    ensures
        next == read_next(phase, event, threshold),
{
    let broken = (ReadPhase::Finished, ReadAction::Reply(Err(ReadError::StoreFailure)));
    match phase {
        ReadPhase::Snapshot => match event {
            ReadEvent::Snapshot { cached, now } => match next_read_step(&cached, now, threshold) {
                ReadStep::Serve => {
                    let snapshot = cached.unwrap();
                    (
                        ReadPhase::Finished,
                        ReadAction::Reply(
                            Ok(ProfileRead { snapshot, freshness: Freshness::Cached }),
                        ),
                    )
                },
                ReadStep::LookUpToken => (ReadPhase::Token { cached, now }, ReadAction::FindToken),
            },
            _ => broken,
        },
        ReadPhase::Token { cached, now } => match event {
            ReadEvent::Token(found) => match next_token_step(&found) {
                TokenStep::NotLinked => (
                    ReadPhase::Finished,
                    ReadAction::Reply(Err(ReadError::NotLinked)),
                ),
                TokenStep::Refresh => {
                    let pair = found.unwrap();
                    (ReadPhase::Refreshing { cached, now }, ReadAction::Refresh(pair.refresh_token))
                },
                TokenStep::Fetch => {
                    let pair = found.unwrap();
                    (ReadPhase::Fetching { now }, ReadAction::FetchProfile(pair.access_token))
                },
            },
            _ => broken,
        },
        ReadPhase::Refreshing { cached, now } => match event {
            ReadEvent::Refreshed(Ok(pair)) => {
                let access_token = pair.access_token.clone();
                (ReadPhase::StoringTokens { access_token, now }, ReadAction::StoreTokens(pair))
            },
            ReadEvent::Refreshed(Err(e)) => (
                ReadPhase::Finished,
                ReadAction::Reply(refresh_failure(&e, cached)),
            ),
            _ => broken,
        },
        ReadPhase::StoringTokens { access_token, now } => match event {
            ReadEvent::Done => (ReadPhase::Fetching { now }, ReadAction::FetchProfile(access_token)),
            _ => broken,
        },
        ReadPhase::Fetching { now } => match event {
            ReadEvent::Fetched(Ok(profile)) => {
                let snapshot = ProfileCache::from_whoami(&profile, now);
                (
                    ReadPhase::StoringProfile {
                        read: ProfileRead { snapshot, freshness: Freshness::Refreshed },
                    },
                    ReadAction::StoreProfile(profile),
                )
            },
            ReadEvent::Fetched(Err(e)) => (
                ReadPhase::Finished,
                ReadAction::Reply(Err(fetch_failure(&e))),
            ),
            _ => broken,
        },
        ReadPhase::StoringProfile { read } => match event {
            ReadEvent::Done => (ReadPhase::Finished, ReadAction::Reply(Ok(read))),
            _ => broken,
        },
        ReadPhase::Finished => broken,
    }
}

/// Whether a read of `user` is answered from the cache.
pub open spec fn serves_cache(s: StoreView, user: u64, threshold: u64) -> bool {
    s.stats.contains_key(user) && !is_stale_at(s.now, s.stats[user].updated_at, threshold)
}

/// The snapshot cached for `user`, if there is one.
pub open spec fn cached_for(s: StoreView, user: u64) -> Option<ProfileCacheView> {
    if s.stats.contains_key(user) {
        Some(s.stats[user])
    } else {
        None
    }
}

/// How a read ends that got as far as the profile fetch.
pub open spec fn fetch_outcome(whoami: Result<WhoAmIResponseView, WhoAmiError>, now: u64)
    -> Result<ProfileReadView, ReadError> {
    match whoami {
        Ok(profile) => Ok(
            ProfileReadView { snapshot: snapshot_of(profile, now), freshness: Freshness::Refreshed },
        ),
        Err(e) => Err(fetch_failure_of(e)),
    }
}

/// How a read of `user` ends, where `refresh` is what the provider answers
/// to the refresh token and `whoami` what it answers to the profile fetch.
pub open spec fn read_outcome(
    s: StoreView,
    user: u64,
    threshold: u64,
    refresh: Result<AccessTokenResponseView, AccessTokenError>,
    whoami: Result<WhoAmIResponseView, WhoAmiError>,
) -> Result<ProfileReadView, ReadError> {
    if serves_cache(s, user, threshold) {
        Ok(ProfileReadView { snapshot: s.stats[user], freshness: Freshness::Cached })
    } else if !s.tokens.contains_key(user) {
        Err(ReadError::NotLinked)
    } else if s.token_expired(user) {
        match refresh {
            Err(e) => refresh_failure_of(e, cached_for(s, user)),
            Ok(_) => fetch_outcome(whoami, s.now),
        }
    } else {
        fetch_outcome(whoami, s.now)
    }
}

/// The store after that read. Only a read that fetched a profile writes: the
/// snapshot, and before it the token pair where that was renewed.
pub open spec fn store_after_read(
    s: StoreView,
    user: u64,
    threshold: u64,
    refresh: Result<AccessTokenResponseView, AccessTokenError>,
    whoami: Result<WhoAmIResponseView, WhoAmiError>,
) -> StoreView {
    if serves_cache(s, user, threshold) || !s.tokens.contains_key(user) {
        s
    } else if s.token_expired(user) {
        match (refresh, whoami) {
            (Ok(pair), Ok(profile)) => s.with_tokens(user, pair).with_stats(user, profile),
            _ => s,
        }
    } else {
        match whoami {
            Ok(profile) => s.with_stats(user, profile),
            Err(_) => s,
        }
    }
}

/// The requests that the read makes of the provider: none while the cache is
/// fresh or the identity unlinked; else the exchange of the stored refresh
/// token where the access token has expired, then the profile fetch with the
/// access token that is valid by then.
pub open spec fn read_calls(
    s: StoreView,
    user: u64,
    threshold: u64,
    refresh: Result<AccessTokenResponseView, AccessTokenError>,
) -> Seq<RemoteCallView> {
    if serves_cache(s, user, threshold) || !s.tokens.contains_key(user) {
        Seq::empty()
    } else if s.token_expired(user) {
        match refresh {
            Err(_) => seq![RemoteCallView::RefreshToken(s.tokens[user].refresh_token)],
            Ok(pair) => seq![
                RemoteCallView::RefreshToken(s.tokens[user].refresh_token),
                RemoteCallView::FetchProfile(pair.access_token),
            ],
        }
    } else {
        seq![RemoteCallView::FetchProfile(s.tokens[user].access_token)]
    }
}

/// How a read ended, and what it asked of the provider on the way.
#[derive(Debug, PartialEq, Eq)]
pub struct ReadReport {
    pub outcome: Result<ProfileRead, ReadError>,
    pub calls: Vec<RemoteCall>,
}

/// Reads the profile of `discord_user_id` against the store, step by step.
/// `refresh` is the provider's answer to the exchange of the refresh token,
/// `whoami` its answer to the profile fetch; each is read only where the
/// request is made. What a failed read has written is taken back.
pub fn whois(
    store: &mut Store,
    discord_user_id: u64,
    threshold: u64,
    refresh: Result<AccessTokenResponse, AccessTokenError>,
    whoami: Result<WhoAmIResponse, WhoAmiError>,
) -> (report: ReadReport)
    requires
        old(store).wf(),
    ensures
        final(store).wf(),
        final(store)@ == store_after_read(
            old(store)@,
            discord_user_id,
            threshold,
            token_answer_view(refresh),
            whoami_answer_view(whoami),
        ),
        read_view(report.outcome) == read_outcome(
            old(store)@,
            discord_user_id,
            threshold,
            token_answer_view(refresh),
            whoami_answer_view(whoami),
        ),
        calls_view(report.calls@) == read_calls(
            old(store)@,
            discord_user_id,
            threshold,
            token_answer_view(refresh),
        ),
{
    let mut calls: Vec<RemoteCall> = Vec::new();
    assert(calls_view(calls@) =~= Seq::<RemoteCallView>::empty());
    let before = store.duplicate();
    let (phase, _) = read_start();
    let event = ReadEvent::Snapshot {
        cached: store.find_user_stats(discord_user_id),
        now: store.now(),
    };
    let (phase, action) = read_step(phase, event, threshold);
    match action {
        ReadAction::FindToken => {},
        ReadAction::Reply(outcome) => {
            return ReadReport { outcome, calls };
        },
        _ => unreached(),
    }
    let event = ReadEvent::Token(store.find_token_pair(discord_user_id));
    let (phase, action) = read_step(phase, event, threshold);
    let (phase, action) = match action {
        ReadAction::Refresh(refresh_token) => {
            calls.push(RemoteCall::RefreshToken(refresh_token));
            assert(calls_view(calls@) =~= seq![RemoteCallView::RefreshToken(refresh_token@)]);
            let (phase, action) = read_step(phase, ReadEvent::Refreshed(refresh), threshold);
            match action {
                ReadAction::StoreTokens(pair) => {
                    update_db_access_token(store, discord_user_id, &pair);
                },
                ReadAction::Reply(outcome) => {
                    return ReadReport { outcome, calls };
                },
                _ => unreached(),
            }
            read_step(phase, ReadEvent::Done, threshold)
        },
        ReadAction::Reply(outcome) => {
            return ReadReport { outcome, calls };
        },
        other => (phase, other),
    };
    let ghost asked = calls@;
    match action {
        ReadAction::FetchProfile(access_token) => {
            calls.push(RemoteCall::FetchProfile(access_token));
            assert(calls_view(calls@) =~= calls_view(asked).push(
                RemoteCallView::FetchProfile(access_token@),
            ));
        },
        _ => unreached(),
    }
    let (phase, action) = read_step(phase, ReadEvent::Fetched(whoami), threshold);
    match action {
        ReadAction::StoreProfile(profile) => {
            update_db_user_stats(store, &profile, discord_user_id);
        },
        ReadAction::Reply(outcome) => {
            *store = before;
            return ReadReport { outcome, calls };
        },
        _ => unreached(),
    }
    let (_, action) = read_step(phase, ReadEvent::Done, threshold);
    match action {
        ReadAction::Reply(outcome) => ReadReport { outcome, calls },
        _ => unreached(),
    }
}

} // verus!
