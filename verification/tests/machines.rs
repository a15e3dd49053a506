use pi_bot::callback::{
    callback_start, callback_step, CallbackAction, CallbackError, CallbackEvent, CallbackPhase,
};
use pi_bot::link::{link_start, link_step, LinkAction, LinkEvent, LinkPhase};
use pi_bot::oauth::{
    AccessTokenError, AccessTokenResponse, ForumsSubResponse, GallerySubResponse,
    TestExchangeSubResponse, WhoAmIResponse, WhoAmiError, WikiSubResponse,
};
use pi_bot::reader::{
    read_start, read_step, Freshness, ProfileRead, ReadAction, ReadError, ReadEvent, ReadPhase,
};
use pi_bot::store::{AuthRequest, AuthRow, ProfileCache, Store, TokenPair};
use pi_bot::table::{Row, Table};

fn pair(access: &str, refresh: &str, expires_at: u64) -> AccessTokenResponse {
    AccessTokenResponse {
        phpbb_user_id: 7,
        access_token: access.to_string(),
        refresh_token: refresh.to_string(),
        expires_at,
    }
}

fn profile(name: &str, posts: u32) -> WhoAmIResponse {
    WhoAmIResponse {
        phpbb_user_id: 7,
        username: name.to_string(),
        forums: ForumsSubResponse {
            user_avatar: None,
            post_count: posts,
            thanks_received: 0,
            thanks_given: 0,
        },
        wiki: WikiSubResponse { edit_count: 0 },
        test_exchange: TestExchangeSubResponse { upload_count: None },
        gallery: GallerySubResponse { score: None, post_count: 0 },
    }
}

#[test]
fn link_machine_reuses_live_handshake() {
    assert_eq!(link_start(), (LinkPhase::Lookup, LinkAction::FindHandshake));
    let live = AuthRequest { state_code: "S1".to_string(), has_expired: false };
    assert_eq!(
        link_step(LinkPhase::Lookup, LinkEvent::Found(Some(live))),
        (LinkPhase::Finished, LinkAction::Invite("S1".to_string()))
    );
}

#[test]
fn link_machine_creates_and_replaces() {
    let expired = AuthRequest { state_code: "S1".to_string(), has_expired: true };
    assert_eq!(
        link_step(LinkPhase::Lookup, LinkEvent::Found(Some(expired))),
        (LinkPhase::Creating, LinkAction::Create { replace_expired: true })
    );
    assert_eq!(
        link_step(LinkPhase::Lookup, LinkEvent::Found(None)),
        (LinkPhase::Creating, LinkAction::Create { replace_expired: false })
    );
    assert_eq!(
        link_step(LinkPhase::Creating, LinkEvent::Created("S2".to_string())),
        (LinkPhase::Finished, LinkAction::Invite("S2".to_string()))
    );
}

#[test]
fn link_machine_gives_up_on_failure_and_misuse() {
    let fail = (LinkPhase::Finished, LinkAction::Fail);
    assert_eq!(link_step(LinkPhase::Lookup, LinkEvent::StoreFailed), fail);
    assert_eq!(link_step(LinkPhase::Creating, LinkEvent::StoreFailed), fail);
    assert_eq!(link_step(LinkPhase::Lookup, LinkEvent::Created("S".to_string())), fail);
    assert_eq!(link_step(LinkPhase::Creating, LinkEvent::Found(None)), fail);
    assert_eq!(link_step(LinkPhase::Finished, LinkEvent::Found(None)), fail);
}

#[test]
fn callback_machine_walks_a_completed_link() {
    let (phase, action) = callback_start();
    assert_eq!(action, CallbackAction::FindHandshake);
    let row = AuthRow { discord_user_id: 9, has_expired: false };
    let (phase, action) = callback_step(phase, CallbackEvent::Found(Some(row)));
    assert_eq!(phase, CallbackPhase::Exchanging(9));
    assert_eq!(action, CallbackAction::Exchange);
    let (phase, action) = callback_step(phase, CallbackEvent::Exchanged(Ok(pair("A1", "R1", 10))));
    assert_eq!(action, CallbackAction::StoreTokens(9, pair("A1", "R1", 10)));
    let (phase, action) = callback_step(phase, CallbackEvent::Done);
    assert_eq!(phase, CallbackPhase::Fetching(9));
    assert_eq!(action, CallbackAction::FetchProfile("A1".to_string()));
    let (phase, action) = callback_step(phase, CallbackEvent::Fetched(Ok(profile("alice", 5))));
    assert_eq!(action, CallbackAction::StoreProfile(9, profile("alice", 5)));
    let (phase, action) = callback_step(phase, CallbackEvent::Done);
    assert_eq!(action, CallbackAction::Consume(9));
    let (phase, action) = callback_step(phase, CallbackEvent::Done);
    assert_eq!(phase, CallbackPhase::Finished);
    assert_eq!(action, CallbackAction::Reply(Ok("alice".to_string())));
}

#[test]
fn callback_machine_ends_early() {
    let not_found = callback_step(CallbackPhase::Lookup, CallbackEvent::Found(None));
    assert_eq!(
        not_found,
        (CallbackPhase::Finished, CallbackAction::Reply(Err(CallbackError::HandshakeNotFound)))
    );
    let row = AuthRow { discord_user_id: 9, has_expired: true };
    let (phase, action) = callback_step(CallbackPhase::Lookup, CallbackEvent::Found(Some(row)));
    assert_eq!((phase.clone(), action), (CallbackPhase::Purging, CallbackAction::Purge(9)));
    assert_eq!(
        callback_step(phase, CallbackEvent::Done),
        (CallbackPhase::Finished, CallbackAction::Reply(Err(CallbackError::HandshakeExpired)))
    );
    let rejected = AccessTokenError::StatusCodeError { expected: 200, found: 404 };
    assert_eq!(
        callback_step(CallbackPhase::Exchanging(9), CallbackEvent::Exchanged(Err(rejected))),
        (
            CallbackPhase::Finished,
            CallbackAction::Reply(Err(CallbackError::AuthorizationCodeNotFound))
        )
    );
    assert_eq!(
        callback_step(CallbackPhase::Fetching(9), CallbackEvent::Fetched(Err(WhoAmiError::ReqwestError))),
        (CallbackPhase::Finished, CallbackAction::Reply(Err(CallbackError::UpstreamUnavailable)))
    );
}

#[test]
fn callback_machine_breaks_on_failure_and_misuse() {
    let broken = (CallbackPhase::Finished, CallbackAction::Reply(Err(CallbackError::StoreFailure)));
    assert_eq!(callback_step(CallbackPhase::Lookup, CallbackEvent::StoreFailed), broken);
    assert_eq!(callback_step(CallbackPhase::Purging, CallbackEvent::StoreFailed), broken);
    assert_eq!(callback_step(CallbackPhase::Exchanging(1), CallbackEvent::Done), broken);
    assert_eq!(callback_step(CallbackPhase::Fetching(1), CallbackEvent::Found(None)), broken);
    assert_eq!(
        callback_step(
            CallbackPhase::StoringTokens { user: 1, access_token: "A".to_string() },
            CallbackEvent::StoreFailed
        ),
        broken
    );
    assert_eq!(
        callback_step(
            CallbackPhase::StoringProfile { user: 1, username: "a".to_string() },
            CallbackEvent::StoreFailed
        ),
        broken
    );
    assert_eq!(
        callback_step(CallbackPhase::Consuming { username: "a".to_string() }, CallbackEvent::StoreFailed),
        broken
    );
    assert_eq!(callback_step(CallbackPhase::Finished, CallbackEvent::Done), broken);
}

fn snapshot(updated_at: u64) -> ProfileCache {
    ProfileCache::from_whoami(&profile("alice", 5), updated_at)
}

#[test]
fn read_machine_serves_fresh_snapshot() {
    assert_eq!(read_start(), (ReadPhase::Snapshot, ReadAction::FindSnapshot));
    let event = ReadEvent::Snapshot { cached: Some(snapshot(100)), now: 160 };
    assert_eq!(
        read_step(ReadPhase::Snapshot, event, 60),
        (
            ReadPhase::Finished,
            ReadAction::Reply(Ok(ProfileRead {
                snapshot: snapshot(100),
                freshness: Freshness::Cached
            }))
        )
    );
}

#[test]
fn read_machine_walks_a_refresh() {
    let event = ReadEvent::Snapshot { cached: Some(snapshot(100)), now: 161 };
    let (phase, action) = read_step(ReadPhase::Snapshot, event, 60);
    assert_eq!(action, ReadAction::FindToken);
    let expired = TokenPair {
        access_token: "A1".to_string(),
        refresh_token: "R1".to_string(),
        has_expired: true,
    };
    let (phase, action) = read_step(phase, ReadEvent::Token(Some(expired)), 60);
    assert_eq!(action, ReadAction::Refresh("R1".to_string()));
    let (phase, action) = read_step(phase, ReadEvent::Refreshed(Ok(pair("A2", "R2", 999))), 60);
    assert_eq!(action, ReadAction::StoreTokens(pair("A2", "R2", 999)));
    let (phase, action) = read_step(phase, ReadEvent::Done, 60);
    assert_eq!(phase, ReadPhase::Fetching { now: 161 });
    assert_eq!(action, ReadAction::FetchProfile("A2".to_string()));
    let (phase, action) = read_step(phase, ReadEvent::Fetched(Ok(profile("alice", 6))), 60);
    assert_eq!(action, ReadAction::StoreProfile(profile("alice", 6)));
    let (phase, action) = read_step(phase, ReadEvent::Done, 60);
    assert_eq!(phase, ReadPhase::Finished);
    assert_eq!(
        action,
        ReadAction::Reply(Ok(ProfileRead {
            snapshot: ProfileCache::from_whoami(&profile("alice", 6), 161),
            freshness: Freshness::Refreshed
        }))
    );
}

#[test]
fn read_machine_fetches_with_valid_token() {
    let phase = ReadPhase::Token { cached: None, now: 5 };
    let live = TokenPair {
        access_token: "A1".to_string(),
        refresh_token: "R1".to_string(),
        has_expired: false,
    };
    assert_eq!(
        read_step(phase, ReadEvent::Token(Some(live)), 60),
        (ReadPhase::Fetching { now: 5 }, ReadAction::FetchProfile("A1".to_string()))
    );
}

#[test]
fn read_machine_ends_early() {
    let no_cache = ReadEvent::Snapshot { cached: None, now: 0 };
    assert_eq!(
        read_step(ReadPhase::Snapshot, no_cache, 60),
        (ReadPhase::Token { cached: None, now: 0 }, ReadAction::FindToken)
    );
    assert_eq!(
        read_step(ReadPhase::Token { cached: None, now: 0 }, ReadEvent::Token(None), 60),
        (ReadPhase::Finished, ReadAction::Reply(Err(ReadError::NotLinked)))
    );
    let rejected = AccessTokenError::StatusCodeError { expected: 200, found: 400 };
    assert_eq!(
        read_step(
            ReadPhase::Refreshing { cached: Some(snapshot(1)), now: 100 },
            ReadEvent::Refreshed(Err(rejected)),
            60
        ),
        (
            ReadPhase::Finished,
            ReadAction::Reply(Ok(ProfileRead { snapshot: snapshot(1), freshness: Freshness::Stale }))
        )
    );
    assert_eq!(
        read_step(
            ReadPhase::Refreshing { cached: None, now: 100 },
            ReadEvent::Refreshed(Err(rejected)),
            60
        ),
        (ReadPhase::Finished, ReadAction::Reply(Err(ReadError::RefreshFailed)))
    );
    assert_eq!(
        read_step(
            ReadPhase::Fetching { now: 100 },
            ReadEvent::Fetched(Err(WhoAmiError::StatusCodeError { expected: 200, found: 500 })),
            60
        ),
        (
            ReadPhase::Finished,
            ReadAction::Reply(Err(ReadError::UpstreamRejected { expected: 200, found: 500 }))
        )
    );
}

#[test]
fn read_machine_breaks_on_failure_and_misuse() {
    let broken = (ReadPhase::Finished, ReadAction::Reply(Err(ReadError::StoreFailure)));
    assert_eq!(read_step(ReadPhase::Snapshot, ReadEvent::StoreFailed, 60), broken);
    assert_eq!(read_step(ReadPhase::Snapshot, ReadEvent::Done, 60), broken);
    assert_eq!(
        read_step(ReadPhase::Token { cached: None, now: 0 }, ReadEvent::StoreFailed, 60),
        broken
    );
    assert_eq!(
        read_step(
            ReadPhase::StoringTokens { access_token: "A".to_string(), now: 0 },
            ReadEvent::StoreFailed,
            60
        ),
        broken
    );
    assert_eq!(read_step(ReadPhase::Fetching { now: 0 }, ReadEvent::Token(None), 60), broken);
    assert_eq!(read_step(ReadPhase::Finished, ReadEvent::Done, 60), broken);
}

#[test]
fn tables_and_stores_duplicate() {
    let mut table: Table<ProfileCache> = Table::new();
    table.put(3, snapshot(1));
    table.put(4, snapshot(2));
    table.put(3, snapshot(5));
    assert_eq!(table.len(), 2);
    assert!(table.contains_key(4));
    let copy = table.duplicate();
    assert_eq!(copy.len(), 2);
    assert_eq!(copy.get(3), Some(&snapshot(5)));
    assert_eq!(copy.get(4), Some(&snapshot(2)));
    assert_eq!(table.remove(3), Some(snapshot(5)));
    assert_eq!(table.remove(3), None);
    assert_eq!(table.get(3), None);
    assert_eq!(copy.get(3), Some(&snapshot(5)));
    assert_eq!(table.key_at(0), 4);
    assert_eq!(table.row_at(0), &snapshot(2));
    assert_eq!(snapshot(2).duplicate(), snapshot(2));

    let mut store = Store::new(60);
    assert!(store.advance_clock(7));
    pi_bot::store::update_db_user_stats(&mut store, &profile("alice", 5), 1);
    let copy = store.duplicate();
    pi_bot::store::update_db_user_stats(&mut store, &profile("bob", 6), 1);
    assert_eq!(copy.now(), 7);
    assert_eq!(copy.find_user_stats(1).unwrap().username, "alice");
    assert_eq!(store.find_user_stats(1).unwrap().username, "bob");
}
