//! The shared store: pending handshakes, token records and cached profiles,
//! each keyed by the chat platform's user id, and the store's own clock.
//!
//! Every decision that depends on time is taken against the clock of the
//! store, never against the caller's.

use crate::oauth::{option_text, AccessTokenResponse, AccessTokenResponseView};
use crate::oauth::{WhoAmIResponse, WhoAmIResponseView};
use crate::table::{Row, Table};
use crate::text::{is_hex, is_hex_text};
use vstd::prelude::*;

verus! {

/// One outstanding invitation to link an identity.
#[derive(Debug, Clone, PartialEq, Eq)]
pub struct PendingHandshake {
    /// The state code, in hex.
    pub state_code: String,
    pub issued_at: u64,
    pub expires_at: u64,
}

/// A handshake by its text.
pub ghost struct PendingHandshakeView {
    pub state_code: Seq<char>,
    pub issued_at: u64,
    pub expires_at: u64,
}

impl View for PendingHandshake {
    type V = PendingHandshakeView;

    open spec fn view(&self) -> PendingHandshakeView {
        PendingHandshakeView {
            state_code: self.state_code@,
            issued_at: self.issued_at,
            expires_at: self.expires_at,
        }
    }
}

/// The token pair of a linked identity.
#[derive(Debug, Clone, PartialEq, Eq)]
pub struct TokenRecord {
    pub phpbb_user_id: i32,
    pub access_token: String,
    pub refresh_token: String,
    pub access_expires_at: u64,
}

/// A token record by its text.
pub ghost struct TokenRecordView {
    pub phpbb_user_id: i32,
    pub access_token: Seq<char>,
    pub refresh_token: Seq<char>,
    pub access_expires_at: u64,
}

impl View for TokenRecord {
    type V = TokenRecordView;

    open spec fn view(&self) -> TokenRecordView {
        TokenRecordView {
            phpbb_user_id: self.phpbb_user_id,
            access_token: self.access_token@,
            refresh_token: self.refresh_token@,
            access_expires_at: self.access_expires_at,
        }
    }
}

/// The cached profile of a linked identity.
#[derive(Debug, Clone, PartialEq, Eq)]
pub struct ProfileCache {
    pub phpbb_user_id: u32,
    pub username: String,
    pub forums_avatar: Option<String>,
    pub forums_post_count: u32,
    pub forums_thanks_received: u32,
    pub forums_thanks_given: u32,
    pub wiki_edit_count: u32,
    pub test_ex_upload_count: u32,
    pub gallery_score: u32,
    pub gallery_post_count: u32,
    pub updated_at: u64,
}

/// A cached profile by its text.
pub ghost struct ProfileCacheView {
    pub phpbb_user_id: u32,
    pub username: Seq<char>,
    pub forums_avatar: Option<Seq<char>>,
    pub forums_post_count: u32,
    pub forums_thanks_received: u32,
    pub forums_thanks_given: u32,
    pub wiki_edit_count: u32,
    pub test_ex_upload_count: u32,
    pub gallery_score: u32,
    pub gallery_post_count: u32,
    pub updated_at: u64,
}

impl View for ProfileCache {
    type V = ProfileCacheView;

    open spec fn view(&self) -> ProfileCacheView {
        ProfileCacheView {
            phpbb_user_id: self.phpbb_user_id,
            username: self.username@,
            forums_avatar: option_text(self.forums_avatar),
            forums_post_count: self.forums_post_count,
            forums_thanks_received: self.forums_thanks_received,
            forums_thanks_given: self.forums_thanks_given,
            wiki_edit_count: self.wiki_edit_count,
            test_ex_upload_count: self.test_ex_upload_count,
            gallery_score: self.gallery_score,
            gallery_post_count: self.gallery_post_count,
            updated_at: self.updated_at,
        }
    }
}

/// What the linking command reads of a handshake.
#[derive(Debug, Clone, PartialEq, Eq)]
pub struct AuthRequest {
    pub state_code: String,
    pub has_expired: bool,
}

/// What the callback reads of a handshake.
#[derive(Debug, Clone, Copy, PartialEq, Eq, Structural)]
pub struct AuthRow {
    pub discord_user_id: u64,
    pub has_expired: bool,
}

/// What a profile read takes from a token record.
#[derive(Debug, Clone, PartialEq, Eq)]
pub struct TokenPair {
    pub access_token: String,
    pub refresh_token: String,
    pub has_expired: bool,
}

/// The fewest hexadecimal digits of a state code: they hold 256 bits.
pub const STATE_CODE_MIN_DIGITS: usize = 64;

/// Whether `code` has the shape of a state code: hexadecimal digits, and
/// enough of them to hold 256 bits.
pub open spec fn is_state_code(code: Seq<char>) -> bool {
    code.len() >= STATE_CODE_MIN_DIGITS && is_hex(code)
}

/// Why the store refused a new handshake.
#[derive(Debug, Clone, Copy, PartialEq, Eq, Structural)]
pub enum StoreError {
    /// The state code is not made of hexadecimal digits, or of too few.
    MalformedStateCode,
    /// The identity already has a handshake.
    DuplicateUser,
    /// Another identity's handshake carries the same state code.
    DuplicateStateCode,
}

/// The record that a token pair from the provider is stored as.
pub open spec fn token_record_of(pair: AccessTokenResponseView) -> TokenRecordView {
    TokenRecordView {
        phpbb_user_id: pair.phpbb_user_id,
        access_token: pair.access_token,
        refresh_token: pair.refresh_token,
        access_expires_at: pair.expires_at,
    }
}

/// The value of an optional counter: zero where the provider left it out.
pub open spec fn counter_or_zero(n: Option<u32>) -> u32 {
    match n {
        Some(v) => v,
        None => 0,
    }
}

/// The snapshot that a profile from the provider is cached as at time `now`.
pub open spec fn snapshot_of(whoami: WhoAmIResponseView, now: u64) -> ProfileCacheView {
    ProfileCacheView {
        phpbb_user_id: whoami.phpbb_user_id,
        username: whoami.username,
        forums_avatar: whoami.forums.user_avatar,
        forums_post_count: whoami.forums.post_count,
        forums_thanks_received: whoami.forums.thanks_received,
        forums_thanks_given: whoami.forums.thanks_given,
        wiki_edit_count: whoami.wiki.edit_count,
        test_ex_upload_count: counter_or_zero(whoami.test_exchange.upload_count),
        gallery_score: counter_or_zero(whoami.gallery.score),
        gallery_post_count: whoami.gallery.post_count,
        updated_at: now,
    }
}

/// The store as a value: three maps keyed by user id, the clock, and the
/// lifetime that a new handshake is given.
pub ghost struct StoreView {
    pub handshakes: Map<u64, PendingHandshakeView>,
    pub tokens: Map<u64, TokenRecordView>,
    pub stats: Map<u64, ProfileCacheView>,
    pub now: u64,
    pub ttl: u64,
}

impl StoreView {
    /// Every state code has the shape of one, no two identities share a state
    /// code, and a handshake issued now still has an expiry that the clock
    /// can reach.
    pub open spec fn wf(self) -> bool {
        &&& self.now + self.ttl <= u64::MAX
        &&& forall|user: u64|
            self.handshakes.contains_key(user) ==> is_state_code(
                (#[trigger] self.handshakes[user]).state_code,
            )
        &&& forall|a: u64, b: u64|
            #![trigger self.handshakes.contains_key(a), self.handshakes.contains_key(b)]
            self.handshakes.contains_key(a) && self.handshakes.contains_key(b) && a != b
                ==> self.handshakes[a].state_code != self.handshakes[b].state_code
    }

    /// Whether `user` has a handshake with this state code.
    pub open spec fn holds_code(self, user: u64, code: Seq<char>) -> bool {
        self.handshakes.contains_key(user) && self.handshakes[user].state_code == code
    }

    /// Whether any handshake carries this state code.
    pub open spec fn code_in_use(self, code: Seq<char>) -> bool {
        exists|user: u64| self.holds_code(user, code)
    }

    /// The identity whose handshake carries this state code.
    pub open spec fn holder(self, code: Seq<char>) -> u64 {
        choose|user: u64| self.holds_code(user, code)
    }

    /// Whether the handshake of `user` is past its expiry.
    pub open spec fn handshake_expired(self, user: u64) -> bool {
        self.now >= self.handshakes[user].expires_at
    }

    /// Whether the access token of `user` is past its expiry.
    pub open spec fn token_expired(self, user: u64) -> bool {
        self.now >= self.tokens[user].access_expires_at
    }

    /// The store without the handshake of `user`.
    pub open spec fn without_handshake(self, user: u64) -> StoreView {
        StoreView { handshakes: self.handshakes.remove(user), ..self }
    }

    /// The store with a handshake for `user`, issued now.
    pub open spec fn with_handshake(self, user: u64, code: Seq<char>) -> StoreView {
        StoreView {
            handshakes: self.handshakes.insert(
                user,
                PendingHandshakeView {
                    state_code: code,
                    issued_at: self.now,
                    expires_at: (self.now + self.ttl) as u64,
                },
            ),
            ..self
        }
    }

    /// The store with the token record of `user` replaced.
    pub open spec fn with_tokens(self, user: u64, pair: AccessTokenResponseView) -> StoreView {
        StoreView { tokens: self.tokens.insert(user, token_record_of(pair)), ..self }
    }

    /// The store with the cached profile of `user` overwritten, stamped now.
    pub open spec fn with_stats(self, user: u64, whoami: WhoAmIResponseView) -> StoreView {
        StoreView { stats: self.stats.insert(user, snapshot_of(whoami, self.now)), ..self }
    }

    /// The store `secs` seconds later, or unchanged where a handshake issued
    /// then could not be given an expiry.
    pub open spec fn later(self, secs: u64) -> StoreView {
        if self.now + secs + self.ttl <= u64::MAX {
            StoreView { now: (self.now + secs) as u64, ..self }
        } else {
            self
        }
    }
}

/// What the store answers to a new handshake of `user` with the state code
/// `code`: the code, or why it refuses.
pub open spec fn insertion_answer(s: StoreView, user: u64, code: Seq<char>) -> Result<
    Seq<char>,
    StoreError,
> {
    if !is_state_code(code) {
        Err(StoreError::MalformedStateCode)
    } else if s.handshakes.contains_key(user) {
        Err(StoreError::DuplicateUser)
    } else if s.code_in_use(code) {
        Err(StoreError::DuplicateStateCode)
    } else {
        Ok(code)
    }
}

/// The text of an answer of the store.
pub open spec fn answer_text(res: Result<String, StoreError>) -> Result<Seq<char>, StoreError> {
    match res {
        Ok(text) => Ok(text@),
        Err(e) => Err(e),
    }
}

/// Under the store's invariant a state code names one identity.
pub proof fn lemma_holder_unique(s: StoreView, user: u64, code: Seq<char>)
    requires
        s.wf(),
        s.holds_code(user, code),
    ensures
        s.code_in_use(code),
        s.holder(code) == user,
{
    let h = s.holder(code);
    assert(s.holds_code(h, code));
}

/// The invariant survives whatever adds no handshake and leaves room on the
/// clock.
proof fn lemma_wf_kept(before: StoreView, after: StoreView)
    requires
        before.wf(),
        after.now + after.ttl <= u64::MAX,
        after.handshakes.submap_of(before.handshakes),
    ensures
        after.wf(),
{
    assert forall|a: u64, b: u64|
        after.handshakes.contains_key(a) && after.handshakes.contains_key(b) && a
            != b implies after.handshakes[a].state_code != after.handshakes[b].state_code by {
        assert(before.handshakes.contains_key(a) && before.handshakes.contains_key(b));
    }
    assert forall|user: u64| after.handshakes.contains_key(user) implies is_state_code(
        (#[trigger] after.handshakes[user]).state_code,
    ) by {
        assert(before.handshakes.contains_key(user));
        assert(after.handshakes[user] == before.handshakes[user]);
    }
}

/// The store: one table for each collection, the clock, and the lifetime
/// of a handshake.
pub struct Store {
    handshakes: Table<PendingHandshake>,
    tokens: Table<TokenRecord>,
    stats: Table<ProfileCache>,
    now: u64,
    ttl: u64,
}

impl View for Store {
    type V = StoreView;

    closed spec fn view(&self) -> StoreView {
        StoreView {
            handshakes: self.handshakes@,
            tokens: self.tokens@,
            stats: self.stats@,
            now: self.now,
            ttl: self.ttl,
        }
    }
}

fn copy_text(s: &Option<String>) -> (r: Option<String>)
    ensures
        r == *s,
{
    match s {
        Some(t) => Some(t.clone()),
        None => None,
    }
}

impl Row for PendingHandshake {
    fn duplicate(&self) -> (copy: PendingHandshake) {
        PendingHandshake {
            state_code: self.state_code.clone(),
            issued_at: self.issued_at,
            expires_at: self.expires_at,
        }
    }
}

impl Row for TokenRecord {
    fn duplicate(&self) -> (copy: TokenRecord) {
        TokenRecord {
            phpbb_user_id: self.phpbb_user_id,
            access_token: self.access_token.clone(),
            refresh_token: self.refresh_token.clone(),
            access_expires_at: self.access_expires_at,
        }
    }
}

impl Row for ProfileCache {
    fn duplicate(&self) -> (copy: ProfileCache) {
        ProfileCache {
            phpbb_user_id: self.phpbb_user_id,
            username: self.username.clone(),
            forums_avatar: copy_text(&self.forums_avatar),
            forums_post_count: self.forums_post_count,
            forums_thanks_received: self.forums_thanks_received,
            forums_thanks_given: self.forums_thanks_given,
            wiki_edit_count: self.wiki_edit_count,
            test_ex_upload_count: self.test_ex_upload_count,
            gallery_score: self.gallery_score,
            gallery_post_count: self.gallery_post_count,
            updated_at: self.updated_at,
        }
    }
}

/// The snapshot that a profile from the provider is cached as at time `now`,
/// as a value.
pub open spec fn cached_as(whoami: WhoAmIResponse, now: u64) -> ProfileCache {
    ProfileCache {
        phpbb_user_id: whoami.phpbb_user_id,
        username: whoami.username,
        forums_avatar: whoami.forums.user_avatar,
        forums_post_count: whoami.forums.post_count,
        forums_thanks_received: whoami.forums.thanks_received,
        forums_thanks_given: whoami.forums.thanks_given,
        wiki_edit_count: whoami.wiki.edit_count,
        test_ex_upload_count: counter_or_zero(whoami.test_exchange.upload_count),
        gallery_score: counter_or_zero(whoami.gallery.score),
        gallery_post_count: whoami.gallery.post_count,
        updated_at: now,
    }
}

impl ProfileCache {
    /// The snapshot that `whoami` is cached as at time `now`: a counter that
    /// the provider left out counts as zero.
    pub fn from_whoami(whoami: &WhoAmIResponse, now: u64) -> (snapshot: ProfileCache)
        ensures
            snapshot == cached_as(*whoami, now),
            snapshot@ == snapshot_of(whoami@, now),
    {
        let uploads: u32 = match whoami.test_exchange.upload_count {
            Some(n) => n,
            None => 0,
        };
        let score: u32 = match whoami.gallery.score {
            Some(n) => n,
            None => 0,
        };
        ProfileCache {
            phpbb_user_id: whoami.phpbb_user_id,
            username: whoami.username.clone(),
            forums_avatar: copy_text(&whoami.forums.user_avatar),
            forums_post_count: whoami.forums.post_count,
            forums_thanks_received: whoami.forums.thanks_received,
            forums_thanks_given: whoami.forums.thanks_given,
            wiki_edit_count: whoami.wiki.edit_count,
            test_ex_upload_count: uploads,
            gallery_score: score,
            gallery_post_count: whoami.gallery.post_count,
            updated_at: now,
        }
    }
}

impl Store {
    /// Whether each table holds one row per key.
    pub closed spec fn tables_wf(&self) -> bool {
        &&& self.handshakes.wf()
        &&& self.tokens.wf()
        &&& self.stats.wf()
    }

    /// The invariant of the store: its tables hold one row per key and its
    /// view is well formed.
    pub open spec fn wf(&self) -> bool {
        &&& self.tables_wf()
        &&& self@.wf()
    }

    /// An empty store whose clock stands at zero. A handshake lives for
    /// `handshake_ttl` seconds.
    pub fn new(handshake_ttl: u64) -> (store: Store)
        ensures
            store.wf(),
            store@ == (StoreView {
                handshakes: Map::empty(),
                tokens: Map::empty(),
                stats: Map::empty(),
                now: 0,
                ttl: handshake_ttl,
            }),
    {
        Store {
            handshakes: Table::new(),
            tokens: Table::new(),
            stats: Table::new(),
            now: 0,
            ttl: handshake_ttl,
        }
    }

    /// A second store that holds the same as this one.
    pub fn duplicate(&self) -> (copy: Store)
        requires
            self.wf(),
        ensures
            copy.wf(),
            copy@ == self@,
    {
        Store {
            handshakes: self.handshakes.duplicate(),
            tokens: self.tokens.duplicate(),
            stats: self.stats.duplicate(),
            now: self.now,
            ttl: self.ttl,
        }
    }

    /// The time on the store's clock.
    pub fn now(&self) -> (t: u64)
        ensures
            t == self@.now,
    {
        self.now
    }

    /// Moves the clock forward by `secs` seconds. Where that would leave no
    /// room for the expiry of a new handshake the clock stays, and the answer
    /// is `false`.
    pub fn advance_clock(&mut self, secs: u64) -> (moved: bool)
        requires
            old(self).wf(),
        ensures
            final(self).wf(),
            final(self)@ == old(self)@.later(secs),
            moved == (old(self)@.now + secs + old(self)@.ttl <= u64::MAX),
    {
        if secs <= u64::MAX - self.ttl - self.now {
            self.now = self.now + secs;
            proof {
                lemma_wf_kept(old(self)@, self@);
            }
            true
        } else {
            false
        }
    }

    /// The handshake of `user_id`, as the linking command reads it.
    pub fn find_auth_request(&self, user_id: u64) -> (found: Option<AuthRequest>)
        requires
            self.wf(),
        ensures
            found is Some == self@.handshakes.contains_key(user_id),
            found matches Some(req) ==> req.state_code@ == self@.handshakes[user_id].state_code
                && req.has_expired == self@.handshake_expired(user_id),
    {
        match self.handshakes.get(user_id) {
            Some(row) => Some(
                AuthRequest {
                    state_code: row.state_code.clone(),
                    has_expired: self.now >= row.expires_at,
                },
            ),
            None => None,
        }
    }

    /// The handshake that carries `state_hex`, as the callback reads it.
    pub fn find_auth_row(&self, state_hex: &str) -> (found: Option<AuthRow>)
        requires
            self.wf(),
        ensures
            found is Some == self@.code_in_use(state_hex@),
            found matches Some(row) ==> row.discord_user_id == self@.holder(state_hex@)
                && self@.holds_code(row.discord_user_id, state_hex@) && row.has_expired
                == self@.handshake_expired(row.discord_user_id),
    {
        let needle = String::from_str(state_hex);
        let n = self.handshakes.len();
        let mut i: usize = 0;
        while i < n
            invariant
                self.wf(),
                n == self.handshakes.spec_len(),
                i <= n,
                needle@ == state_hex@,
                forall|j: int|
                    0 <= j < i ==> !self@.holds_code(
                        #[trigger] self.handshakes.spec_key(j),
                        state_hex@,
                    ),
            decreases n - i,
        {
            let row = self.handshakes.row_at(i);
            let user = self.handshakes.key_at(i);
            if row.state_code == needle {
                proof {
                    lemma_holder_unique(self@, user, state_hex@);
                }
                return Some(AuthRow { discord_user_id: user, has_expired: self.now >= row.expires_at });
            }
            i += 1;
        }
        proof {
            self.handshakes.lemma_positions();
            if self@.code_in_use(state_hex@) {
                let u = self@.holder(state_hex@);
                assert(self@.holds_code(u, state_hex@));
                let j = choose|j: int|
                    0 <= j < self.handshakes.spec_len() && self.handshakes.spec_key(j) == u;
                assert(!self@.holds_code(self.handshakes.spec_key(j), state_hex@));
            }
        }
        None
    }

    /// Deletes the handshake of `user_id`, if there is one.
    pub fn delete_auth_request(&mut self, user_id: u64)
        requires
            old(self).wf(),
        ensures
            final(self).wf(),
            final(self)@ == old(self)@.without_handshake(user_id),
    {
        let _ = self.handshakes.remove(user_id);
        proof {
            lemma_wf_kept(old(self)@, self@);
        }
    }

    /// The token pair of `user_id`, as a profile read takes it.
    pub fn find_token_pair(&self, user_id: u64) -> (found: Option<TokenPair>)
        requires
            self.wf(),
        ensures
            found is Some == self@.tokens.contains_key(user_id),
            found matches Some(pair) ==> pair.access_token@ == self@.tokens[user_id].access_token
                && pair.refresh_token@ == self@.tokens[user_id].refresh_token && pair.has_expired
                == self@.token_expired(user_id),
    {
        match self.tokens.get(user_id) {
            Some(row) => Some(
                TokenPair {
                    access_token: row.access_token.clone(),
                    refresh_token: row.refresh_token.clone(),
                    has_expired: self.now >= row.access_expires_at,
                },
            ),
            None => None,
        }
    }

    /// The cached profile of `user_id`.
    pub fn find_user_stats(&self, user_id: u64) -> (found: Option<ProfileCache>)
        requires
            self.wf(),
        ensures
            found is Some == self@.stats.contains_key(user_id),
            found matches Some(stats) ==> stats@ == self@.stats[user_id],
    {
        match self.stats.get(user_id) {
            Some(row) => Some(row.duplicate()),
            None => None,
        }
    }
}

/// Records a handshake for `user_id` with the state code that the store drew,
/// issued now, and hands the code back. A state code is made of hexadecimal
/// digits, at least 64 of them. The store holds one handshake per identity
/// and one identity per state code. Whatever breaks these rules is refused
/// and nothing is written.
pub fn insert_auth_request_code(tx: &mut Store, user_id: u64, state_code: String) -> (res: Result<
    String,
    StoreError,
>)
    requires
        old(tx).wf(),
    ensures
        final(tx).wf(),
        res matches Ok(code) ==> code@ == state_code@,
        answer_text(res) == insertion_answer(old(tx)@, user_id, state_code@),
        final(tx)@ == if res is Ok {
            old(tx)@.with_handshake(user_id, state_code@)
        } else {
            old(tx)@
        },
{
    if !is_hex_text(state_code.as_str(), STATE_CODE_MIN_DIGITS) {
        return Err(StoreError::MalformedStateCode);
    }
    if tx.handshakes.contains_key(user_id) {
        return Err(StoreError::DuplicateUser);
    }
    if tx.find_auth_row(state_code.as_str()).is_some() {
        return Err(StoreError::DuplicateStateCode);
    }
    let code = state_code.clone();
    let row = PendingHandshake { state_code, issued_at: tx.now, expires_at: tx.now + tx.ttl };
    tx.handshakes.put(user_id, row);
    proof {
        let before = old(tx)@;
        let after = tx@;
        assert forall|a: u64, b: u64|
            after.handshakes.contains_key(a) && after.handshakes.contains_key(b) && a
                != b implies after.handshakes[a].state_code != after.handshakes[b].state_code by {
            if a == user_id {
                assert(!before.holds_code(b, code@));
            } else if b == user_id {
                assert(!before.holds_code(a, code@));
            }
        }
        assert forall|user: u64| after.handshakes.contains_key(user) implies is_state_code(
            (#[trigger] after.handshakes[user]).state_code,
        ) by {
            if user != user_id {
                assert(before.handshakes.contains_key(user));
                assert(after.handshakes[user] == before.handshakes[user]);
            }
        }
    }
    Ok(code)
}

/// Replaces the token record of `discord_user_id` by the pair in `body_res`:
/// whatever record was there is deleted and the new one inserted whole.
pub fn update_db_access_token(tx: &mut Store, discord_user_id: u64, body_res: &AccessTokenResponse)
    requires
        old(tx).wf(),
    ensures
        final(tx).wf(),
        final(tx)@ == old(tx)@.with_tokens(discord_user_id, body_res@),
{
    let _ = tx.tokens.remove(discord_user_id);
    let row = TokenRecord {
        phpbb_user_id: body_res.phpbb_user_id,
        access_token: body_res.access_token.clone(),
        refresh_token: body_res.refresh_token.clone(),
        access_expires_at: body_res.expires_at,
    };
    tx.tokens.put(discord_user_id, row);
    assert(tx@.tokens =~= old(tx)@.tokens.insert(discord_user_id, token_record_of(body_res@)));
    proof {
        lemma_wf_kept(old(tx)@, tx@);
    }
}

/// Writes the profile in `whoami` as the cached snapshot of
/// `discord_user_id`, stamped with the store's time: the first snapshot is
/// inserted, a later one overwrites every field of the one before.
pub fn update_db_user_stats(conn: &mut Store, whoami: &WhoAmIResponse, discord_user_id: u64)
    requires
        old(conn).wf(),
    ensures
        final(conn).wf(),
        final(conn)@ == old(conn)@.with_stats(discord_user_id, whoami@),
{
    let row = ProfileCache::from_whoami(whoami, conn.now);
    conn.stats.put(discord_user_id, row);
    proof {
        lemma_wf_kept(old(conn)@, conn@);
    }
}

} // verus!
