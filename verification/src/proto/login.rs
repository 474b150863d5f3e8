//! Messages of the login exchange and the session tokens.
use vstd::prelude::*;

verus! {

/// Which ways of logging in the server offers for an account.
#[derive(Debug, Clone)]
pub struct PrepareAck {
    pub webauthn_enabled: bool,
    pub password_enabled: bool,
}

/// A password login.
#[derive(Debug, Clone)]
pub struct LoginReq {
    pub email: String,
    pub password: String,
}

/// A request for fresh tokens.
#[derive(Debug, Clone)]
pub struct RefreshTokenReq {
    pub refresh_token: String,
}

/// The user a session belongs to.
#[derive(Debug, Clone)]
pub struct User {
    pub id: String,
    pub email: String,
    pub nickname: String,
    pub status: String,
    pub created_at: String,
    pub group: Group,
    pub language: Option<String>,
}

/// The group of a user and what it may do.
#[derive(Debug, Clone)]
pub struct Group {
    pub id: String,
    pub name: String,
    pub permission: String,
    pub direct_link_batch_size: i32,
    pub trash_retention: i64,
}

/// The tokens of a session. The expiry times are kept as the date-time text
/// they are stored as (a UTC date-time in the relaxed RFC 3339 form).
#[derive(Debug, Clone)]
pub struct Token {
    pub access_token: String,
    pub refresh_token: String,
    pub access_expires: String,
    pub refresh_expires: String,
}

/// The reply to a successful login.
#[derive(Debug, Clone)]
pub struct LoginAck {
    pub user: User,
    pub token: Token,
}

/// The tokens as four texts: access token, access expiry, refresh token,
/// refresh expiry.
pub open spec fn token_view(t: Token) -> (Seq<char>, Seq<char>, Seq<char>, Seq<char>) {
    (t.access_token@, t.access_expires@, t.refresh_token@, t.refresh_expires@)
}

/// Whether chrono reads `s` as a UTC date-time (`DateTime<Utc>: FromStr`).
pub uninterp spec fn is_utc_datetime_text(s: Seq<char>) -> bool;

/// Checks `s` with chrono's `DateTime::<Utc>::from_str`: `Ok` exactly when
/// chrono reads it as a date-time; otherwise chrono's error text, about which
/// nothing is stated.
#[verifier::external_body]
pub(crate) fn check_utc_datetime(s: &str) -> (r: Result<(), String>)
    ensures
        r is Ok <==> is_utc_datetime_text(s@),
{
    match s.parse::<chrono::DateTime<chrono::Utc>>() {
        Ok(_) => Ok(()),
        Err(e) => Err(e.to_string()),
    }
}

} // verus!
