//! What holds of the linking flow as a whole, over any store and any answer
//! of the provider.

use crate::callback::{callback_outcome, store_after_callback, CallbackError};
use crate::link::{has_live_handshake, issued_code, store_after_auth};
use crate::oauth::{AccessTokenError, AccessTokenResponseView, RemoteCallView};
use crate::oauth::{WhoAmIResponseView, WhoAmiError};
use crate::reader::{read_calls, read_outcome, serves_cache, store_after_read};
use crate::reader::{Freshness, ProfileReadView, ReadError};
use crate::store::{is_state_code, lemma_holder_unique, snapshot_of, token_record_of};
use crate::store::{StoreError, StoreView};
use vstd::prelude::*;

verus! {

/// A link request leaves the store well formed.
pub proof fn law_auth_keeps_store_well_formed(s: StoreView, user: u64, fresh: Seq<char>)
    requires
        s.wf(),
    ensures
        store_after_auth(s, user, fresh).wf(),
{
    let after = store_after_auth(s, user, fresh);
    if after != s {
        let cleared = s.without_handshake(user);
        assert forall|a: u64, b: u64|
            after.handshakes.contains_key(a) && after.handshakes.contains_key(b) && a
                != b implies after.handshakes[a].state_code != after.handshakes[b].state_code by {
            if a == user {
                assert(!cleared.holds_code(b, fresh));
            } else if b == user {
                assert(!cleared.holds_code(a, fresh));
            } else {
                assert(s.handshakes.contains_key(a) && s.handshakes.contains_key(b));
            }
        }
    }
}

/// A link request that is asked again, `secs` seconds later and before the
/// handshake has expired, is answered with the same state code, whatever
/// code the store would draw the second time, and writes nothing.
pub proof fn law_reissue_returns_same_code(
    s: StoreView,
    user: u64,
    first: Seq<char>,
    second: Seq<char>,
    secs: u64,
)
    requires
        s.wf(),
        issued_code(s, user, first) is Ok,
        !store_after_auth(s, user, first).later(secs).handshake_expired(user),
    ensures
        issued_code(store_after_auth(s, user, first).later(secs), user, second) == issued_code(
            s,
            user,
            first,
        ),
        store_after_auth(store_after_auth(s, user, first).later(secs), user, second)
            == store_after_auth(s, user, first).later(secs),
{
}

/// A handshake that a link request creates lives for the store's lifetime of
/// a handshake: it has expired `secs` seconds later exactly when `secs` has
/// reached that lifetime.
pub proof fn law_handshake_lives_for_its_lifetime(
    s: StoreView,
    user: u64,
    fresh: Seq<char>,
    secs: u64,
)
    requires
        s.wf(),
        !has_live_handshake(s, user),
        issued_code(s, user, fresh) is Ok,
        s.now + secs + s.ttl <= u64::MAX,
    ensures
        store_after_auth(s, user, fresh).later(secs).handshake_expired(user) == (secs >= s.ttl),
{
}

/// Once a handshake has expired, a link request is answered with the code
/// that the store draws anew: a different one than the expired handshake
/// carried, unless the store draws that very code again.
pub proof fn law_reissue_after_expiry_changes_code(s: StoreView, user: u64, fresh: Seq<char>)
    requires
        s.wf(),
        s.handshakes.contains_key(user),
        s.handshake_expired(user),
        fresh != s.handshakes[user].state_code,
    ensures
        issued_code(s, user, fresh) matches Ok(code) ==> code == fresh && code
            != s.handshakes[user].state_code && store_after_auth(s, user, fresh).holds_code(
            user,
            code,
        ),
        issued_code(s, user, fresh) is Err ==> store_after_auth(s, user, fresh) == s,
{
}

/// A callback leaves the store well formed.
pub proof fn law_callback_keeps_store_well_formed(
    s: StoreView,
    state: Seq<char>,
    exchange: Result<AccessTokenResponseView, AccessTokenError>,
    whoami: Result<WhoAmIResponseView, WhoAmiError>,
)
    requires
        s.wf(),
    ensures
        store_after_callback(s, state, exchange, whoami).wf(),
{
    let after = store_after_callback(s, state, exchange, whoami);
    assert forall|a: u64, b: u64|
        after.handshakes.contains_key(a) && after.handshakes.contains_key(b) && a
            != b implies after.handshakes[a].state_code != after.handshakes[b].state_code by {
        assert(s.handshakes.contains_key(a) && s.handshakes.contains_key(b));
    }
}

/// A callback that completes leaves, for the identity that owned the
/// handshake, the token pair that the provider issued, the profile that it
/// reported, and no handshake. The store maps an identity to at most one
/// record of each kind, so there is exactly one token record and one cached
/// profile.
pub proof fn law_completed_callback_links_identity(
    s: StoreView,
    state: Seq<char>,
    exchange: Result<AccessTokenResponseView, AccessTokenError>,
    whoami: Result<WhoAmIResponseView, WhoAmiError>,
)
    requires
        s.wf(),
        callback_outcome(s, state, exchange, whoami) is Ok,
    ensures
        exchange is Ok,
        whoami is Ok,
        s.holds_code(s.holder(state), state),
        ({
            let user = s.holder(state);
            let after = store_after_callback(s, state, exchange, whoami);
            &&& after.tokens.contains_key(user)
            &&& after.tokens[user] == token_record_of(exchange->Ok_0)
            &&& after.stats.contains_key(user)
            &&& after.stats[user] == snapshot_of(whoami->Ok_0, s.now)
            &&& !after.handshakes.contains_key(user)
            &&& after.tokens.remove(user) == s.tokens.remove(user)
            &&& after.stats.remove(user) == s.stats.remove(user)
            &&& after.handshakes == s.handshakes.remove(user)
        }),
{
    let user = s.holder(state);
    let after = store_after_callback(s, state, exchange, whoami);
    assert(s.holds_code(user, state));
    assert(after.tokens.remove(user) =~= s.tokens.remove(user));
    assert(after.stats.remove(user) =~= s.stats.remove(user));
}

/// A callback that fails for any reason but expiry writes nothing, so the
/// handshake stays for another attempt.
pub proof fn law_failed_callback_writes_nothing(
    s: StoreView,
    state: Seq<char>,
    exchange: Result<AccessTokenResponseView, AccessTokenError>,
    whoami: Result<WhoAmIResponseView, WhoAmiError>,
)
    requires
        callback_outcome(s, state, exchange, whoami) is Err,
        callback_outcome(s, state, exchange, whoami) != Err::<Seq<char>, CallbackError>(
            CallbackError::HandshakeExpired,
        ),
    ensures
        store_after_callback(s, state, exchange, whoami) == s,
{
}

/// A state code completes a link at most once: after a callback that
/// completed, a callback with the same state code finds no handshake,
/// whenever it comes and whatever the provider would answer, and writes
/// nothing.
pub proof fn law_callback_replay_finds_nothing(
    s: StoreView,
    state: Seq<char>,
    exchange: Result<AccessTokenResponseView, AccessTokenError>,
    whoami: Result<WhoAmIResponseView, WhoAmiError>,
    secs: u64,
    replay_exchange: Result<AccessTokenResponseView, AccessTokenError>,
    replay_whoami: Result<WhoAmIResponseView, WhoAmiError>,
)
    requires
        s.wf(),
        callback_outcome(s, state, exchange, whoami) is Ok,
    ensures
        callback_outcome(
            store_after_callback(s, state, exchange, whoami).later(secs),
            state,
            replay_exchange,
            replay_whoami,
        ) == Err::<Seq<char>, CallbackError>(CallbackError::HandshakeNotFound),
        store_after_callback(
            store_after_callback(s, state, exchange, whoami).later(secs),
            state,
            replay_exchange,
            replay_whoami,
        ) == store_after_callback(s, state, exchange, whoami).later(secs),
{
    let user = s.holder(state);
    let after = store_after_callback(s, state, exchange, whoami).later(secs);
    assert(s.holds_code(user, state));
    if after.code_in_use(state) {
        let other = after.holder(state);
        assert(after.holds_code(other, state));
        assert(s.holds_code(other, state));
        lemma_holder_unique(s, other, state);
    }
}

/// The same holds of a callback that found the handshake expired: it deleted
/// the handshake, so a second one finds nothing.
pub proof fn law_expired_handshake_is_collected(
    s: StoreView,
    state: Seq<char>,
    exchange: Result<AccessTokenResponseView, AccessTokenError>,
    whoami: Result<WhoAmIResponseView, WhoAmiError>,
)
    requires
        s.wf(),
        callback_outcome(s, state, exchange, whoami) == Err::<Seq<char>, CallbackError>(
            CallbackError::HandshakeExpired,
        ),
    ensures
        !store_after_callback(s, state, exchange, whoami).code_in_use(state),
        store_after_callback(s, state, exchange, whoami) == s.without_handshake(s.holder(state)),
{
    let user = s.holder(state);
    let after = store_after_callback(s, state, exchange, whoami);
    assert(s.holds_code(user, state));
    if after.code_in_use(state) {
        let other = after.holder(state);
        assert(after.holds_code(other, state));
        assert(s.holds_code(other, state));
        lemma_holder_unique(s, other, state);
    }
}

/// A read leaves the store well formed.
pub proof fn law_read_keeps_store_well_formed(
    s: StoreView,
    user: u64,
    threshold: u64,
    refresh: Result<AccessTokenResponseView, AccessTokenError>,
    whoami: Result<WhoAmIResponseView, WhoAmiError>,
)
    requires
        s.wf(),
    ensures
        store_after_read(s, user, threshold, refresh, whoami).wf(),
{
    let after = store_after_read(s, user, threshold, refresh, whoami);
    assert(after.handshakes == s.handshakes);
}

/// A snapshot that is written now is stale `secs` seconds later exactly when
/// `secs` is above the threshold.
pub proof fn law_snapshot_goes_stale_past_threshold(
    s: StoreView,
    user: u64,
    profile: WhoAmIResponseView,
    secs: u64,
    threshold: u64,
)
    requires
        s.now + secs + s.ttl <= u64::MAX,
    ensures
        serves_cache(s.with_stats(user, profile).later(secs), user, threshold) == (secs
            <= threshold),
{
}

/// A read within the staleness threshold of the last write asks nothing of
/// the provider, hands out the cached snapshot as it is, and writes nothing.
pub proof fn law_fresh_read_is_served_from_cache(
    s: StoreView,
    user: u64,
    threshold: u64,
    refresh: Result<AccessTokenResponseView, AccessTokenError>,
    whoami: Result<WhoAmIResponseView, WhoAmiError>,
)
    requires
        s.stats.contains_key(user),
        s.now - s.stats[user].updated_at <= threshold,
    ensures
        read_calls(s, user, threshold, refresh) == Seq::<RemoteCallView>::empty(),
        read_outcome(s, user, threshold, refresh, whoami) == Ok::<ProfileReadView, ReadError>(
            ProfileReadView { snapshot: s.stats[user], freshness: Freshness::Cached },
        ),
        store_after_read(s, user, threshold, refresh, whoami) == s,
{
}

/// A read past the staleness threshold, of an identity whose access token
/// has expired, exchanges the stored refresh token once and then fetches the
/// profile once, with the new access token. Where both succeed the new
/// token pair and the new snapshot are stored, and the stored expiry is
/// strictly later than before, provided that the provider issued a later one.
pub proof fn law_stale_read_refreshes_once(
    s: StoreView,
    user: u64,
    threshold: u64,
    pair: AccessTokenResponseView,
    profile: WhoAmIResponseView,
)
    requires
        !serves_cache(s, user, threshold),
        s.tokens.contains_key(user),
        s.token_expired(user),
        pair.expires_at > s.tokens[user].access_expires_at,
    ensures
        read_calls(s, user, threshold, Ok(pair)) == seq![
            RemoteCallView::RefreshToken(s.tokens[user].refresh_token),
            RemoteCallView::FetchProfile(pair.access_token),
        ],
        read_outcome(s, user, threshold, Ok(pair), Ok(profile)) == Ok::<ProfileReadView, ReadError>(
            ProfileReadView {
                snapshot: snapshot_of(profile, s.now),
                freshness: Freshness::Refreshed,
            },
        ),
        ({
            let after = store_after_read(s, user, threshold, Ok(pair), Ok(profile));
            &&& after.tokens.contains_key(user)
            &&& after.tokens[user] == token_record_of(pair)
            &&& after.tokens[user].access_expires_at > s.tokens[user].access_expires_at
            &&& after.stats.contains_key(user)
            &&& after.stats[user] == snapshot_of(profile, s.now)
        }),
{
}

/// A token that the provider issues with an expiry in the future is later
/// than one that has expired.
pub proof fn law_unexpired_token_is_later(s: StoreView, user: u64, pair: AccessTokenResponseView)
    requires
        s.token_expired(user),
        pair.expires_at > s.now,
    ensures
        pair.expires_at > s.tokens[user].access_expires_at,
{
}

/// A read that fails writes nothing: neither the token pair nor the snapshot
/// changes.
pub proof fn law_failed_read_writes_nothing(
    s: StoreView,
    user: u64,
    threshold: u64,
    refresh: Result<AccessTokenResponseView, AccessTokenError>,
    whoami: Result<WhoAmIResponseView, WhoAmiError>,
)
    requires
        read_outcome(s, user, threshold, refresh, whoami) is Err,
    ensures
        store_after_read(s, user, threshold, refresh, whoami) == s,
{
}

/// Every state code that a link request is answered with has the shape of
/// one: hexadecimal digits, at least 64 of them, which hold 256 bits.
pub proof fn law_issued_code_is_state_code(s: StoreView, user: u64, fresh: Seq<char>)
    requires
        s.wf(),
    ensures
        issued_code(s, user, fresh) matches Ok(code) ==> is_state_code(code),
{
}

/// A link request is refused only for the state code that was drawn: it has
/// not the shape of one, or another identity holds it.
pub proof fn law_auth_fails_only_on_drawn_code(s: StoreView, user: u64, fresh: Seq<char>)
    ensures
        issued_code(s, user, fresh) matches Err(e) ==> (e == StoreError::MalformedStateCode
            && !is_state_code(fresh)) || (e == StoreError::DuplicateStateCode && is_state_code(
            fresh,
        )),
{
}

} // verus!
