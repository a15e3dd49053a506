//! The upstream identity provider: what it answers, what is sent to it, and
//! how an answer's status is judged.
//!
//! Sending a request and decoding a body are left to the caller. This module
//! fixes the three requests (exchange an authorization code, exchange a
//! refresh token, fetch the profile) and classifies the status of the answer.

use crate::text::{decimal, push_decimal};
use vstd::prelude::*;

verus! {

/// The host every request goes to.
pub const OAUTH_HOST_URL: &'static str = "https://scioly.org";

/// The status an answer must carry to be read.
pub const EXPECTED_STATUS_CODE: u16 = 200;

/// The status by which the provider says that it does not know a thing.
pub const NOT_FOUND_STATUS_CODE: u16 = 404;

/// A token pair as the provider issues it.
#[derive(Debug, Clone, PartialEq, Eq)]
pub struct AccessTokenResponse {
    pub phpbb_user_id: i32,
    pub access_token: String,
    pub refresh_token: String,
    /// Seconds since the epoch at which the access token stops being valid.
    pub expires_at: u64,
}

/// A token pair by its text.
pub ghost struct AccessTokenResponseView {
    pub phpbb_user_id: i32,
    pub access_token: Seq<char>,
    pub refresh_token: Seq<char>,
    pub expires_at: u64,
}

impl View for AccessTokenResponse {
    type V = AccessTokenResponseView;

    open spec fn view(&self) -> AccessTokenResponseView {
        AccessTokenResponseView {
            phpbb_user_id: self.phpbb_user_id,
            access_token: self.access_token@,
            refresh_token: self.refresh_token@,
            expires_at: self.expires_at,
        }
    }
}

/// What the provider reports of the forums.
#[derive(Debug, Clone, PartialEq, Eq)]
pub struct ForumsSubResponse {
    pub user_avatar: Option<String>,
    pub post_count: u32,
    pub thanks_received: u32,
    pub thanks_given: u32,
}

/// The forums part of a profile by its text.
pub ghost struct ForumsSubResponseView {
    pub user_avatar: Option<Seq<char>>,
    pub post_count: u32,
    pub thanks_received: u32,
    pub thanks_given: u32,
}

/// The text of an optional string.
pub open spec fn option_text(s: Option<String>) -> Option<Seq<char>> {
    match s {
        Some(t) => Some(t@),
        None => None,
    }
}

impl View for ForumsSubResponse {
    type V = ForumsSubResponseView;

    open spec fn view(&self) -> ForumsSubResponseView {
        ForumsSubResponseView {
            user_avatar: option_text(self.user_avatar),
            post_count: self.post_count,
            thanks_received: self.thanks_received,
            thanks_given: self.thanks_given,
        }
    }
}

/// What the provider reports of the wiki.
#[derive(Debug, Clone, Copy, PartialEq, Eq)]
pub struct WikiSubResponse {
    pub edit_count: u32,
}

/// What the provider reports of the test exchange.
#[derive(Debug, Clone, Copy, PartialEq, Eq)]
pub struct TestExchangeSubResponse {
    pub upload_count: Option<u32>,
}

/// What the provider reports of the gallery.
#[derive(Debug, Clone, Copy, PartialEq, Eq)]
pub struct GallerySubResponse {
    pub score: Option<u32>,
    pub post_count: u32,
}

/// The profile as the provider reports it.
#[derive(Debug, Clone, PartialEq, Eq)]
pub struct WhoAmIResponse {
    pub phpbb_user_id: u32,
    pub username: String,
    pub forums: ForumsSubResponse,
    pub wiki: WikiSubResponse,
    pub test_exchange: TestExchangeSubResponse,
    pub gallery: GallerySubResponse,
}

/// A profile by its text.
pub ghost struct WhoAmIResponseView {
    pub phpbb_user_id: u32,
    pub username: Seq<char>,
    pub forums: ForumsSubResponseView,
    pub wiki: WikiSubResponse,
    pub test_exchange: TestExchangeSubResponse,
    pub gallery: GallerySubResponse,
}

impl View for WhoAmIResponse {
    type V = WhoAmIResponseView;

    open spec fn view(&self) -> WhoAmIResponseView {
        WhoAmIResponseView {
            phpbb_user_id: self.phpbb_user_id,
            username: self.username@,
            forums: self.forums@,
            wiki: self.wiki,
            test_exchange: self.test_exchange,
            gallery: self.gallery,
        }
    }
}

/// Why a profile fetch gave no profile.
#[derive(Debug, Clone, Copy, PartialEq, Eq, Structural)]
pub enum WhoAmiError {
    /// The request could not be sent, or the answer could not be read.
    ReqwestError,
    /// The provider answered with another status than the expected one.
    StatusCodeError { expected: u16, found: u16 },
}

/// Why a token exchange gave no token pair.
#[derive(Debug, Clone, Copy, PartialEq, Eq, Structural)]
pub enum AccessTokenError {
    /// The request could not be sent, or the answer could not be read.
    ReqwestError,
    /// The provider answered with another status than the expected one.
    StatusCodeError { expected: u16, found: u16 },
}

/// What is said of a status that is not the expected one.
pub open spec fn status_error_text(expected: u16, found: u16) -> Seq<char> {
    "incorrect status code (expected "@ + decimal(expected as nat) + ", found "@ + decimal(
        found as nat,
    ) + ")"@
}

fn status_error_message(expected: u16, found: u16) -> (message: String)
    ensures
        message@ == status_error_text(expected, found),
{
    let mut message = String::from_str("incorrect status code (expected ");
    push_decimal(&mut message, expected as u64);
    message.append(", found ");
    push_decimal(&mut message, found as u64);
    message.append(")");
    message
}

impl WhoAmiError {
    /// What is said of the error.
    pub open spec fn text(self) -> Seq<char> {
        match self {
            WhoAmiError::ReqwestError => "reqwest error"@,
            WhoAmiError::StatusCodeError { expected, found } => status_error_text(expected, found),
        }
    }

    /// Writes what is said of the error.
    pub fn message(&self) -> (message: String)
        ensures
            message@ == self.text(),
    {
        match self {
            WhoAmiError::ReqwestError => String::from_str("reqwest error"),
            WhoAmiError::StatusCodeError { expected, found } => status_error_message(
                *expected,
                *found,
            ),
        }
    }
}

impl AccessTokenError {
    /// What is said of the error.
    pub open spec fn text(self) -> Seq<char> {
        match self {
            AccessTokenError::ReqwestError => "reqwest error"@,
            AccessTokenError::StatusCodeError { expected, found } => status_error_text(
                expected,
                found,
            ),
        }
    }

    /// Writes what is said of the error.
    pub fn message(&self) -> (message: String)
        ensures
            message@ == self.text(),
    {
        match self {
            AccessTokenError::ReqwestError => String::from_str("reqwest error"),
            AccessTokenError::StatusCodeError { expected, found } => status_error_message(
                *expected,
                *found,
            ),
        }
    }
}

/// What the token endpoint gave, by the text of what it holds.
pub open spec fn token_answer_view(answer: Result<AccessTokenResponse, AccessTokenError>) -> Result<
    AccessTokenResponseView,
    AccessTokenError,
> {
    match answer {
        Ok(pair) => Ok(pair@),
        Err(e) => Err(e),
    }
}

/// What the profile endpoint gave, by the text of what it holds.
pub open spec fn whoami_answer_view(answer: Result<WhoAmIResponse, WhoAmiError>) -> Result<
    WhoAmIResponseView,
    WhoAmiError,
> {
    match answer {
        Ok(whoami) => Ok(whoami@),
        Err(e) => Err(e),
    }
}

/// One request made of the provider, with the grant or token it carried.
#[derive(Debug, Clone, PartialEq, Eq)]
pub enum RemoteCall {
    ExchangeCode(String),
    RefreshToken(String),
    FetchProfile(String),
}

/// A request by its text.
pub ghost enum RemoteCallView {
    ExchangeCode(Seq<char>),
    RefreshToken(Seq<char>),
    FetchProfile(Seq<char>),
}

impl View for RemoteCall {
    type V = RemoteCallView;

    open spec fn view(&self) -> RemoteCallView {
        match self {
            RemoteCall::ExchangeCode(code) => RemoteCallView::ExchangeCode(code@),
            RemoteCall::RefreshToken(token) => RemoteCallView::RefreshToken(token@),
            RemoteCall::FetchProfile(token) => RemoteCallView::FetchProfile(token@),
        }
    }
}

/// The requests of a list, in order.
pub open spec fn calls_view(calls: Seq<RemoteCall>) -> Seq<RemoteCallView> {
    calls.map_values(|c: RemoteCall| c@)
}

/// A form-encoded POST to the token endpoint.
#[derive(Debug, Clone, PartialEq, Eq)]
pub struct TokenRequest {
    pub url: String,
    pub grant_type: String,
    /// The name of the field that carries the grant.
    pub grant_field: String,
    pub grant: String,
    pub client_id: String,
    pub client_secret: String,
}

/// A token request by its text.
pub ghost struct TokenRequestView {
    pub url: Seq<char>,
    pub grant_type: Seq<char>,
    pub grant_field: Seq<char>,
    pub grant: Seq<char>,
    pub client_id: Seq<char>,
    pub client_secret: Seq<char>,
}

impl View for TokenRequest {
    type V = TokenRequestView;

    open spec fn view(&self) -> TokenRequestView {
        TokenRequestView {
            url: self.url@,
            grant_type: self.grant_type@,
            grant_field: self.grant_field@,
            grant: self.grant@,
            client_id: self.client_id@,
            client_secret: self.client_secret@,
        }
    }
}

/// A GET that authenticates with a bearer token.
#[derive(Debug, Clone, PartialEq, Eq)]
pub struct ProfileRequest {
    pub url: String,
    /// The value of the `Authorization` header.
    pub authorization: String,
}

/// A profile request by its text.
pub ghost struct ProfileRequestView {
    pub url: Seq<char>,
    pub authorization: Seq<char>,
}

impl View for ProfileRequest {
    type V = ProfileRequestView;

    open spec fn view(&self) -> ProfileRequestView {
        ProfileRequestView { url: self.url@, authorization: self.authorization@ }
    }
}

/// The address of the token endpoint.
pub open spec fn token_endpoint() -> Seq<char> {
    OAUTH_HOST_URL@ + "/oauth/access_token/"@
}

/// The address of the profile endpoint.
pub open spec fn whoami_endpoint() -> Seq<char> {
    OAUTH_HOST_URL@ + "/oauth/api/whoami/"@
}

fn token_request(grant_type: &str, grant_field: &str, grant: &str, id: &str, secret: &str) -> (req:
    TokenRequest)
    ensures
        req@ == (TokenRequestView {
            url: token_endpoint(),
            grant_type: grant_type@,
            grant_field: grant_field@,
            grant: grant@,
            client_id: id@,
            client_secret: secret@,
        }),
{
    let mut url = String::from_str(OAUTH_HOST_URL);
    url.append("/oauth/access_token/");
    TokenRequest {
        url,
        grant_type: String::from_str(grant_type),
        grant_field: String::from_str(grant_field),
        grant: String::from_str(grant),
        client_id: String::from_str(id),
        client_secret: String::from_str(secret),
    }
}

/// The request that trades a refresh token for a new token pair.
pub fn refresh_access_token(
    refresh_token: &str,
    oauth_client_id: &str,
    oauth_client_secret: &str,
) -> (req: TokenRequest)
    ensures
        req@ == (TokenRequestView {
            url: token_endpoint(),
            grant_type: "refresh_token"@,
            grant_field: "refresh_token"@,
            grant: refresh_token@,
            client_id: oauth_client_id@,
            client_secret: oauth_client_secret@,
        }),
{
    token_request(
        "refresh_token",
        "refresh_token",
        refresh_token,
        oauth_client_id,
        oauth_client_secret,
    )
}

/// The request that trades an authorization code for a first token pair.
pub fn fetch_new_token(
    authorization_code: &str,
    oauth_client_id: &str,
    oauth_client_secret: &str,
) -> (req: TokenRequest)
    ensures
        req@ == (TokenRequestView {
            url: token_endpoint(),
            grant_type: "authorization_code"@,
            grant_field: "code"@,
            grant: authorization_code@,
            client_id: oauth_client_id@,
            client_secret: oauth_client_secret@,
        }),
{
    token_request(
        "authorization_code",
        "code",
        authorization_code,
        oauth_client_id,
        oauth_client_secret,
    )
}

/// The request that asks whose access token this is.
pub fn fetch_whoami(authorization_access_token: &str) -> (req: ProfileRequest)
    ensures
        req@ == (ProfileRequestView {
            url: whoami_endpoint(),
            authorization: "Bearer "@ + authorization_access_token@,
        }),
{
    let mut url = String::from_str(OAUTH_HOST_URL);
    url.append("/oauth/api/whoami/");
    let mut authorization = String::from_str("Bearer ");
    authorization.append(authorization_access_token);
    ProfileRequest { url, authorization }
}

/// Judges the status of an answer from the token endpoint: only the expected
/// status lets the body be read.
pub fn check_token_status(found: u16) -> (res: Result<(), AccessTokenError>)
    ensures
        res == if found == EXPECTED_STATUS_CODE {
            Ok::<(), AccessTokenError>(())
        } else {
            Err::<(), AccessTokenError>(
                AccessTokenError::StatusCodeError { expected: EXPECTED_STATUS_CODE, found },
            )
        },
{
    if found != EXPECTED_STATUS_CODE {
        return Err(AccessTokenError::StatusCodeError { expected: EXPECTED_STATUS_CODE, found });
    }
    Ok(())
}

/// Judges the status of an answer from the profile endpoint.
pub fn check_whoami_status(found: u16) -> (res: Result<(), WhoAmiError>)
    ensures
        res == if found == EXPECTED_STATUS_CODE {
            Ok::<(), WhoAmiError>(())
        } else {
            Err::<(), WhoAmiError>(
                WhoAmiError::StatusCodeError { expected: EXPECTED_STATUS_CODE, found },
            )
        },
{
    if found != EXPECTED_STATUS_CODE {
        return Err(WhoAmiError::StatusCodeError { expected: EXPECTED_STATUS_CODE, found });
    }
    Ok(())
}

} // verus!
