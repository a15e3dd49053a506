//! Starting a link: the handshake that an identity is given, and the address
//! it is sent to.
//!
//! A live handshake is handed out again unchanged. An expired one is replaced,
//! and an identity without one gets its first. Nothing here talks to the
//! provider.

use crate::oauth::OAUTH_HOST_URL;
use crate::store::{answer_text, insert_auth_request_code, is_state_code};
use crate::store::{AuthRequest, Store, StoreError, StoreView};
use vstd::prelude::*;

verus! {

/// What the linking command does once it has looked for a handshake.
#[derive(Debug, Clone, Copy, PartialEq, Eq, Structural)]
pub enum LinkStep {
    /// A live handshake exists: hand its state code out again.
    Reuse,
    /// The handshake has expired: delete it, then create a new one.
    ReplaceExpired,
    /// There is no handshake: create one.
    CreateFirst,
}

/// The step that follows from what the lookup found: `None` for no
/// handshake, else whether the one found has expired.
pub open spec fn link_step_of(found: Option<bool>) -> LinkStep {
    match found {
        Some(has_expired) => if has_expired {
            LinkStep::ReplaceExpired
        } else {
            LinkStep::Reuse
        },
        None => LinkStep::CreateFirst,
    }
}

/// Whether a lookup found a handshake, and whether that one has expired.
pub open spec fn expiry_found(found: Option<AuthRequest>) -> Option<bool> {
    match found {
        Some(req) => Some(req.has_expired),
        None => None,
    }
}

/// Decides what to do with the handshake that the lookup found.
pub fn next_link_step(found: &Option<AuthRequest>) -> (step: LinkStep)
    ensures
        step == link_step_of(expiry_found(*found)),
{
    match found {
        Some(req) => {
            if req.has_expired {
                LinkStep::ReplaceExpired
            } else {
                LinkStep::Reuse
            }
        },
        None => LinkStep::CreateFirst,
    }
}

/// Where a link request stands between two steps.
#[derive(Debug, Clone, Copy, PartialEq, Eq, Structural)]
pub enum LinkPhase {
    /// The handshake is being looked up.
    Lookup,
    /// A new handshake is being created.
    Creating,
    /// The request has been answered.
    Finished,
}

/// What the world reports to a link request.
#[derive(Debug, Clone, PartialEq, Eq)]
pub enum LinkEvent {
    /// The lookup of the handshake has ended.
    Found(Option<AuthRequest>),
    /// The store has created a handshake with this state code.
    Created(String),
    /// The store failed.
    StoreFailed,
}

/// What a link request asks of the world next.
#[derive(Debug, Clone, PartialEq, Eq)]
pub enum LinkAction {
    /// Look up the handshake of the identity.
    FindHandshake,
    /// Create a handshake; where `replace_expired` is set, delete the
    /// expired one first.
    Create { replace_expired: bool },
    /// Commit, and invite the user with the address that carries this state
    /// code.
    Invite(String),
    /// Give up; whatever was written is rolled back.
    Fail,
}

/// The phase that follows `phase` on `event`, and what is asked next.
pub open spec fn link_next(phase: LinkPhase, event: LinkEvent) -> (LinkPhase, LinkAction) {
    match phase {
        LinkPhase::Lookup => match event {
            LinkEvent::Found(Some(request)) => if request.has_expired {
                (LinkPhase::Creating, LinkAction::Create { replace_expired: true })
            } else {
                (LinkPhase::Finished, LinkAction::Invite(request.state_code))
            },
            LinkEvent::Found(None) => (
                LinkPhase::Creating,
                LinkAction::Create { replace_expired: false },
            ),
            _ => (LinkPhase::Finished, LinkAction::Fail),
        },
        LinkPhase::Creating => match event {
            LinkEvent::Created(code) => (LinkPhase::Finished, LinkAction::Invite(code)),
            _ => (LinkPhase::Finished, LinkAction::Fail),
        },
        LinkPhase::Finished => (LinkPhase::Finished, LinkAction::Fail),
    }
}

/// How a link request begins: by looking up the handshake.
pub fn link_start() -> (first: (LinkPhase, LinkAction))
    ensures
        first == (LinkPhase::Lookup, LinkAction::FindHandshake),
{
    (LinkPhase::Lookup, LinkAction::FindHandshake)
}

/// Takes a link request one step further: from the phase it is in and what
/// the world reports, to the next phase and what to ask next. A failed
/// store, or an event that the phase does not wait for, makes it give up.
pub fn link_step(phase: LinkPhase, event: LinkEvent) -> (next: (LinkPhase, LinkAction))
    ensures
        next == link_next(phase, event),
{
    match phase {
        LinkPhase::Lookup => match event {
            LinkEvent::Found(found) => match next_link_step(&found) {
                LinkStep::Reuse => {
                    let request = found.unwrap();
                    (LinkPhase::Finished, LinkAction::Invite(request.state_code))
                },
                LinkStep::ReplaceExpired => (
                    LinkPhase::Creating,
                    LinkAction::Create { replace_expired: true },
                ),
                LinkStep::CreateFirst => (
                    LinkPhase::Creating,
                    LinkAction::Create { replace_expired: false },
                ),
            },
            _ => (LinkPhase::Finished, LinkAction::Fail),
        },
        LinkPhase::Creating => match event {
            LinkEvent::Created(code) => (LinkPhase::Finished, LinkAction::Invite(code)),
            _ => (LinkPhase::Finished, LinkAction::Fail),
        },
        LinkPhase::Finished => (LinkPhase::Finished, LinkAction::Fail),
    }
}

/// The address that a user follows to grant the link.
pub open spec fn authorize_url_text(state_code: Seq<char>, client_id: Seq<char>) -> Seq<char> {
    OAUTH_HOST_URL@ + "/oauth/authorize?response_type=code&state="@ + state_code + "&client_id="@
        + client_id
}

/// Writes the address that carries `state_code` and `client_id`.
pub fn authorize_url(state_code: &str, client_id: &str) -> (url: String)
    ensures
        url@ == authorize_url_text(state_code@, client_id@),
{
    let mut url = String::from_str(OAUTH_HOST_URL);
    url.append("/oauth/authorize?response_type=code&state=");
    url.append(state_code);
    url.append("&client_id=");
    url.append(client_id);
    url
}

/// The words that accompany the address.
pub open spec fn link_invitation_text(url: Seq<char>) -> Seq<char> {
    "To link your Scioly.org account to your Discord account, please follow this link: [Authenticate on Scioly.org]("@
        + url + ")"@
}

/// Writes the invitation that is shown with the address.
pub fn link_invitation(url: &str) -> (text: String)
    ensures
        text@ == link_invitation_text(url@),
{
    let mut text = String::from_str(
        "To link your Scioly.org account to your Discord account, please follow this link: [Authenticate on Scioly.org](",
    );
    text.append(url);
    text.append(")");
    text
}

/// Whether `user` holds a handshake that has not expired.
pub open spec fn has_live_handshake(s: StoreView, user: u64) -> bool {
    s.handshakes.contains_key(user) && !s.handshake_expired(user)
}

/// Whether a new handshake with the state code `fresh` would be refused:
/// another identity's handshake carries that code already.
pub open spec fn fresh_code_taken(s: StoreView, user: u64, fresh: Seq<char>) -> bool {
    s.without_handshake(user).code_in_use(fresh)
}

/// The state code that a link request of `user` is answered with, where
/// `fresh` is the code that the store draws if it has to create a handshake.
/// A draw that has not the shape of a state code, or that another identity
/// holds, is refused.
pub open spec fn issued_code(s: StoreView, user: u64, fresh: Seq<char>) -> Result<
    Seq<char>,
    StoreError,
> {
    if has_live_handshake(s, user) {
        Ok(s.handshakes[user].state_code)
    } else if !is_state_code(fresh) {
        Err(StoreError::MalformedStateCode)
    } else if fresh_code_taken(s, user, fresh) {
        Err(StoreError::DuplicateStateCode)
    } else {
        Ok(fresh)
    }
}

/// The store after a link request of `user`. A refused request leaves it as
/// it was.
pub open spec fn store_after_auth(s: StoreView, user: u64, fresh: Seq<char>) -> StoreView {
    if has_live_handshake(s, user) || !is_state_code(fresh) || fresh_code_taken(s, user, fresh) {
        s
    } else {
        s.without_handshake(user).with_handshake(user, fresh)
    }
}

/// What a link request is answered with: the address that carries the issued
/// state code.
pub open spec fn auth_answer(s: StoreView, user: u64, fresh: Seq<char>, client_id: Seq<char>)
    -> Result<Seq<char>, StoreError> {
    match issued_code(s, user, fresh) {
        Ok(code) => Ok(authorize_url_text(code, client_id)),
        Err(e) => Err(e),
    }
}

/// Answers a link request of `user_id` against the store, step by step.
/// `fresh_code` is the state code that the store draws for a new handshake;
/// it is used only where one is created. A refused handshake leaves the
/// store as it was.
pub fn auth(store: &mut Store, user_id: u64, fresh_code: String, oauth_client_id: &str) -> (res:
    Result<String, StoreError>)
    requires
        old(store).wf(),
    ensures
        final(store).wf(),
        final(store)@ == store_after_auth(old(store)@, user_id, fresh_code@),
        answer_text(res) == auth_answer(old(store)@, user_id, fresh_code@, oauth_client_id@),
{
    let (phase, _) = link_start();
    let found = store.find_auth_request(user_id);
    let (phase, action) = link_step(phase, LinkEvent::Found(found));
    let replace_expired = match action {
        LinkAction::Invite(code) => {
            return Ok(authorize_url(code.as_str(), oauth_client_id));
        },
        LinkAction::Create { replace_expired } => replace_expired,
        _ => unreached(),
    };
    let before = store.duplicate();
    if replace_expired {
        store.delete_auth_request(user_id);
    }
    proof {
        assert(store@.handshakes =~= old(store)@.handshakes.remove(user_id));
        assert(store@ == old(store)@.without_handshake(user_id));
    }
    match insert_auth_request_code(store, user_id, fresh_code) {
        Ok(code) => {
            let (_, action) = link_step(phase, LinkEvent::Created(code));
            match action {
                LinkAction::Invite(code) => Ok(authorize_url(code.as_str(), oauth_client_id)),
                _ => unreached(),
            }
        },
        Err(e) => {
            *store = before;
            Err(e)
        },
    }
}

} // verus!
