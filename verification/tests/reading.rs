use pi_bot::oauth::{
    AccessTokenError, AccessTokenResponse, ForumsSubResponse, GallerySubResponse, RemoteCall,
    TestExchangeSubResponse, WhoAmIResponse, WhoAmiError, WikiSubResponse,
};
use pi_bot::reader::{
    fetch_failure, is_stale, next_read_step, next_token_step, refresh_failure, whois, Freshness,
    ReadError, ReadStep, TokenStep, DEFAULT_STALENESS_SECS,
};
use pi_bot::store::{update_db_access_token, update_db_user_stats, Store, TokenPair};

const U1: u64 = 2001;

fn pair(access: &str, refresh: &str, expires_at: u64) -> AccessTokenResponse {
    AccessTokenResponse {
        phpbb_user_id: 7,
        access_token: access.to_string(),
        refresh_token: refresh.to_string(),
        expires_at,
    }
}

fn profile(name: &str, posts: u32) -> WhoAmIResponse {
    WhoAmIResponse {
        phpbb_user_id: 7,
        username: name.to_string(),
        forums: ForumsSubResponse {
            user_avatar: None,
            post_count: posts,
            thanks_received: 0,
            thanks_given: 0,
        },
        wiki: WikiSubResponse { edit_count: 0 },
        test_exchange: TestExchangeSubResponse { upload_count: None },
        gallery: GallerySubResponse { score: None, post_count: 0 },
    }
}

fn linked_store(access_expires_at: u64) -> Store {
    let mut store = Store::new(600);
    update_db_access_token(&mut store, U1, &pair("A1", "R1", access_expires_at));
    update_db_user_stats(&mut store, &profile("alice", 5), U1);
    store
}

#[test]
fn default_threshold_is_one_minute() {
    assert_eq!(DEFAULT_STALENESS_SECS, 60);
}

#[test]
fn staleness_is_age_beyond_threshold() {
    assert!(!is_stale(100, 100, 60));
    assert!(!is_stale(160, 100, 60));
    assert!(is_stale(161, 100, 60));
    assert!(!is_stale(50, 100, 60));
    assert!(is_stale(u64::MAX, 0, 60));
    assert!(is_stale(1, 0, 0));
}

#[test]
fn fresh_read_serves_cache_without_remote_call() {
    let mut store = linked_store(30);
    assert!(store.advance_clock(60));
    let cached = store.find_user_stats(U1).unwrap();
    let report = whois(
        &mut store,
        U1,
        DEFAULT_STALENESS_SECS,
        Ok(pair("A2", "R2", 9999)),
        Ok(profile("changed", 99)),
    );
    assert!(report.calls.is_empty());
    let read = report.outcome.unwrap();
    assert_eq!(read.freshness, Freshness::Cached);
    assert_eq!(read.snapshot, cached);
    assert_eq!(store.find_user_stats(U1), Some(cached));
    assert_eq!(store.find_token_pair(U1).unwrap().access_token, "A1");
}

#[test]
fn stale_read_with_expired_token_refreshes_once() {
    let mut store = linked_store(30);
    assert!(store.advance_clock(61));
    let now = store.now();
    let report = whois(
        &mut store,
        U1,
        DEFAULT_STALENESS_SECS,
        Ok(pair("A2", "R2", now + 3600)),
        Ok(profile("alice", 6)),
    );
    assert_eq!(
        report.calls,
        vec![
            RemoteCall::RefreshToken("R1".to_string()),
            RemoteCall::FetchProfile("A2".to_string()),
        ]
    );
    let read = report.outcome.unwrap();
    assert_eq!(read.freshness, Freshness::Refreshed);
    assert_eq!(read.snapshot.forums_post_count, 6);
    assert_eq!(read.snapshot.updated_at, now);
    assert_eq!(store.find_user_stats(U1), Some(read.snapshot));
    let tokens = store.find_token_pair(U1).unwrap();
    assert_eq!(tokens.access_token, "A2");
    assert_eq!(tokens.refresh_token, "R2");
    assert!(!tokens.has_expired);
    assert!(store.advance_clock(3599));
    assert!(!store.find_token_pair(U1).unwrap().has_expired);
    assert!(store.advance_clock(1));
    assert!(store.find_token_pair(U1).unwrap().has_expired);
}

#[test]
fn stale_read_with_valid_token_only_fetches() {
    let mut store = linked_store(1000);
    assert!(store.advance_clock(61));
    let report = whois(
        &mut store,
        U1,
        DEFAULT_STALENESS_SECS,
        Ok(pair("A2", "R2", 9999)),
        Ok(profile("alice", 6)),
    );
    assert_eq!(report.calls, vec![RemoteCall::FetchProfile("A1".to_string())]);
    assert_eq!(report.outcome.unwrap().freshness, Freshness::Refreshed);
    assert_eq!(store.find_token_pair(U1).unwrap().access_token, "A1");
    assert_eq!(store.find_user_stats(U1).unwrap().forums_post_count, 6);
}

#[test]
fn read_of_unlinked_identity_fails() {
    let mut store = Store::new(600);
    let report = whois(&mut store, U1, 60, Ok(pair("A2", "R2", 9999)), Ok(profile("alice", 6)));
    assert_eq!(report.outcome, Err(ReadError::NotLinked));
    assert!(report.calls.is_empty());
    assert_eq!(store.find_user_stats(U1), None);
}

#[test]
fn stale_cache_without_token_is_not_linked() {
    let mut store = Store::new(600);
    update_db_user_stats(&mut store, &profile("alice", 5), U1);
    assert!(store.advance_clock(100));
    let report = whois(&mut store, U1, 60, Ok(pair("A2", "R2", 9999)), Ok(profile("alice", 6)));
    assert_eq!(report.outcome, Err(ReadError::NotLinked));
    assert!(report.calls.is_empty());
}

#[test]
fn missing_cache_counts_as_stale() {
    let mut store = Store::new(600);
    update_db_access_token(&mut store, U1, &pair("A1", "R1", 1000));
    let report = whois(&mut store, U1, 60, Ok(pair("A2", "R2", 9999)), Ok(profile("alice", 6)));
    assert_eq!(report.calls, vec![RemoteCall::FetchProfile("A1".to_string())]);
    assert_eq!(report.outcome.unwrap().snapshot.username, "alice");
    assert_eq!(store.find_user_stats(U1).unwrap().forums_post_count, 6);
}

#[test]
fn rejected_refresh_serves_last_snapshot() {
    let mut store = linked_store(30);
    assert!(store.advance_clock(100));
    let cached = store.find_user_stats(U1).unwrap();
    let rejected = AccessTokenError::StatusCodeError { expected: 200, found: 401 };
    let report = whois(&mut store, U1, 60, Err(rejected), Ok(profile("alice", 6)));
    assert_eq!(report.calls, vec![RemoteCall::RefreshToken("R1".to_string())]);
    let read = report.outcome.unwrap();
    assert_eq!(read.freshness, Freshness::Stale);
    assert_eq!(read.snapshot, cached);
    assert_eq!(store.find_token_pair(U1).unwrap().access_token, "A1");
}

#[test]
fn rejected_refresh_without_snapshot_fails() {
    let mut store = Store::new(600);
    update_db_access_token(&mut store, U1, &pair("A1", "R1", 0));
    let rejected = AccessTokenError::StatusCodeError { expected: 200, found: 401 };
    let report = whois(&mut store, U1, 60, Err(rejected), Ok(profile("alice", 6)));
    assert_eq!(report.outcome, Err(ReadError::RefreshFailed));
    assert_eq!(report.calls, vec![RemoteCall::RefreshToken("R1".to_string())]);
}

#[test]
fn unreachable_provider_fails_the_read() {
    let mut store = linked_store(30);
    assert!(store.advance_clock(100));
    let report = whois(&mut store, U1, 60, Err(AccessTokenError::ReqwestError), Ok(profile("a", 1)));
    assert_eq!(report.outcome, Err(ReadError::Transport));
    assert_eq!(store.find_user_stats(U1).unwrap().forums_post_count, 5);
}

#[test]
fn failed_fetch_rolls_back_the_renewed_token() {
    let mut store = linked_store(30);
    assert!(store.advance_clock(100));
    let report = whois(
        &mut store,
        U1,
        60,
        Ok(pair("A2", "R2", 9999)),
        Err(WhoAmiError::StatusCodeError { expected: 200, found: 500 }),
    );
    assert_eq!(report.outcome, Err(ReadError::UpstreamRejected { expected: 200, found: 500 }));
    assert_eq!(
        report.calls,
        vec![
            RemoteCall::RefreshToken("R1".to_string()),
            RemoteCall::FetchProfile("A2".to_string()),
        ]
    );
    let tokens = store.find_token_pair(U1).unwrap();
    assert_eq!(tokens.access_token, "A1");
    assert_eq!(tokens.refresh_token, "R1");
    assert_eq!(store.find_user_stats(U1).unwrap().forums_post_count, 5);
    let report = whois(&mut store, U1, 60, Ok(pair("A2", "R2", 9999)), Err(WhoAmiError::ReqwestError));
    assert_eq!(report.outcome, Err(ReadError::Transport));
}

#[test]
fn read_steps_follow_lookups() {
    let store = linked_store(30);
    let cached = store.find_user_stats(U1);
    assert_eq!(next_read_step(&cached, 60, 60), ReadStep::Serve);
    assert_eq!(next_read_step(&cached, 61, 60), ReadStep::LookUpToken);
    assert_eq!(next_read_step(&None, 0, 60), ReadStep::LookUpToken);
    assert_eq!(next_token_step(&None), TokenStep::NotLinked);
    let live = TokenPair {
        access_token: "A".to_string(),
        refresh_token: "R".to_string(),
        has_expired: false,
    };
    let expired = TokenPair {
        access_token: "A".to_string(),
        refresh_token: "R".to_string(),
        has_expired: true,
    };
    assert_eq!(next_token_step(&Some(live)), TokenStep::Fetch);
    assert_eq!(next_token_step(&Some(expired)), TokenStep::Refresh);
    assert_eq!(
        refresh_failure(&AccessTokenError::ReqwestError, cached.clone()),
        Err(ReadError::Transport)
    );
    assert_eq!(
        refresh_failure(&AccessTokenError::StatusCodeError { expected: 200, found: 400 }, None),
        Err(ReadError::RefreshFailed)
    );
    assert_eq!(fetch_failure(&WhoAmiError::ReqwestError), ReadError::Transport);
    assert_eq!(
        fetch_failure(&WhoAmiError::StatusCodeError { expected: 200, found: 403 }),
        ReadError::UpstreamRejected { expected: 200, found: 403 }
    );
}
