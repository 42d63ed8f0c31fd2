//! Magic-link sign-in: link construction, token lifetimes, and the
//! verification decision.
//!
//! A request for a link creates a random token, stores its SHA-256 hash
//! with a 24-hour expiry, and mails the raw token inside a callback URL.
//! Verification looks the hash up, rejects unknown or expired tokens, and
//! on success opens a 30-day session. The token generation and hashing live
//! in `crypto`; this module holds the link format and the decisions.

use vstd::prelude::*;
use vstd::string::StrSliceExecFns;
use vstd::string::StringExecFns;
use vstd::string::StringSliceAdditionalSpecFns;

use crate::text::trim_end_slash_spec;
use crate::text::trim_end_slashes;
use crate::text::url_encode;
use crate::text::urlencoded_of;

verus! {

/// How long a magic-link token lives: 24 hours, in seconds.
pub const TOKEN_TTL_SECONDS: i64 = 86400;

/// How long a session opened by a verified link lives: 30 days, in
/// seconds.
pub const SESSION_TTL_SECONDS: i64 = 2592000;

/// When a token issued now expires.
pub fn token_expiry(now: i64) -> (r: i64)
    requires
        now <= i64::MAX - TOKEN_TTL_SECONDS,
    ensures
        r == now + TOKEN_TTL_SECONDS,
{
    now + TOKEN_TTL_SECONDS
}

/// When a session opened now expires.
pub fn session_expiry(now: i64) -> (r: i64)
    requires
        now <= i64::MAX - SESSION_TTL_SECONDS,
    ensures
        r == now + SESSION_TTL_SECONDS,
{
    now + SESSION_TTL_SECONDS
}

/// The callback URL mailed to the user: the callback base with trailing
/// slashes removed, the raw token, and the percent-encoded address.
pub fn magic_link_url(callback_url: &str, raw_token: &str, email: &str) -> (r: String)
    ensures
        r@ == trim_end_slash_spec(callback_url@) + "/api/auth/callback/email?token="@ + raw_token@
            + "&email="@ + urlencoded_of(email.spec_bytes()),
{
    let base = trim_end_slashes(callback_url);
    let encoded = url_encode(email);
    base.to_owned().concat("/api/auth/callback/email?token=").concat(raw_token).concat(
        "&email=",
    ).concat(encoded.as_str())
}

/// A request for a sign-in link.
#[derive(Debug)]
pub struct MagicLinkRequest {
    pub email: String,
    pub locale: Option<String>,
    pub callback_url: Option<String>,
}

/// The answer to a link request.
#[derive(Debug)]
pub struct MagicLinkResponse {
    pub success: bool,
    pub message: String,
}

/// A presented sign-in token.
#[derive(Debug)]
pub struct VerifyRequest {
    pub token: String,
}

/// The answer to a verification: the opened session on success.
#[derive(Debug)]
pub struct VerifyResponse {
    pub success: bool,
    pub message: String,
    pub session_token: Option<String>,
    pub user_id: Option<String>,
}

/// What verification concludes about a presented token.
#[derive(Debug)]
pub enum TokenDecision {
    /// No stored token hashes to the presented value.
    Invalid,
    /// The token exists but its expiry lies before the current time; it is
    /// deleted and rejected.
    Expired,
    /// The token is good: sign the address in and delete the token.
    Valid { email: String },
}

/// Decide a presented token from the stored record — the address it was
/// issued for and its expiry — and the current time. The stored record is
/// deleted in every case where it was found.
pub fn verify_token_decision(record: Option<(String, i64)>, now: i64) -> (r: TokenDecision)
    ensures
        match record {
            None => r is Invalid,
            Some(rec) => if rec.1 < now {
                r is Expired
            } else {
                r matches TokenDecision::Valid { email } && email@ == rec.0@
            },
        },
{
    match record {
        None => TokenDecision::Invalid,
        Some((email, expires)) => {
            if expires < now {
                TokenDecision::Expired
            } else {
                TokenDecision::Valid { email }
            }
        },
    }
}

} // verus!
