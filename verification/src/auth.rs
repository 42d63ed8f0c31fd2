//! Request authentication: bearer tokens, the internal API key, and the
//! identity-provider claims.
//!
//! JWT decoding itself runs outside this crate; the decisions around it —
//! extracting the bearer token from a header value, comparing the internal
//! API key, and turning verified claims into the user info the API returns
//! — are verified here.

use vstd::prelude::*;
use vstd::string::StrSliceExecFns;
use vstd::string::StringExecFns;

use crate::text::str_eq_chars;
use crate::text::strip_prefix_str;
use crate::text::trim_end_slash_spec;
use crate::text::trim_end_slashes;
use crate::text::trim_of;
use crate::text::trim_str;

verus! {

broadcast use vstd::string::group_string_axioms;

/// The claims the identity provider signs into its access tokens.
#[derive(Debug, Clone)]
pub struct SupabaseClaims {
    pub sub: String,
    pub email: Option<String>,
    pub role: Option<String>,
    pub exp: usize,
    pub iat: Option<usize>,
}

/// Why bearer authentication failed.
#[derive(Debug, Clone, Copy, PartialEq, Eq, Structural)]
pub enum AuthError {
    MissingAuthorization,
    InvalidAuthorization,
    MissingJwtSecret,
    InvalidToken,
}

impl AuthError {
    /// The error text, as the API reports it.
    pub fn message(&self) -> (r: String)
        ensures
            r@ == match *self {
                AuthError::MissingAuthorization => "missing Authorization header"@,
                AuthError::InvalidAuthorization => "invalid Authorization header"@,
                AuthError::MissingJwtSecret => "missing SUPABASE_JWT_SECRET"@,
                AuthError::InvalidToken => "invalid token"@,
            },
    {
        match *self {
            AuthError::MissingAuthorization => String::from_str("missing Authorization header"),
            AuthError::InvalidAuthorization => String::from_str("invalid Authorization header"),
            AuthError::MissingJwtSecret => String::from_str("missing SUPABASE_JWT_SECRET"),
            AuthError::InvalidToken => String::from_str("invalid token"),
        }
    }
}

/// The token named in an `Authorization` header: the header value is
/// trimmed, must begin with `Bearer `, and what follows, trimmed again,
/// must be non-empty. `None` stands for an absent header.
pub fn bearer_token(header: Option<&str>) -> (r: Result<String, AuthError>)
    ensures
        match header {
            None => r == Err::<String, AuthError>(AuthError::MissingAuthorization),
            Some(value) => {
                let t = trim_of(value@);
                if "Bearer "@.is_prefix_of(t) {
                    let tok = trim_of(t.skip("Bearer "@.len() as int));
                    if tok.len() == 0 {
                        r == Err::<String, AuthError>(AuthError::InvalidAuthorization)
                    } else {
                        r matches Ok(token) && token@ == tok
                    }
                } else {
                    r == Err::<String, AuthError>(AuthError::InvalidAuthorization)
                }
            },
        },
{
    let value = match header {
        Some(v) => v,
        None => {
            return Err(AuthError::MissingAuthorization);
        },
    };
    let value = trim_str(value);
    let rest = match strip_prefix_str(value, "Bearer ") {
        Some(rest) => rest,
        None => {
            return Err(AuthError::InvalidAuthorization);
        },
    };
    let token = trim_str(rest);
    if token.unicode_len() == 0 {
        return Err(AuthError::InvalidAuthorization);
    }
    Ok(token.to_owned())
}

/// Why internal-API-key authentication failed.
#[derive(Debug, Clone, Copy, PartialEq, Eq, Structural)]
pub enum InternalAuthError {
    MissingConfig,
    MissingKey,
    InvalidKey,
}

impl InternalAuthError {
    /// The error text, as the API reports it.
    pub fn message(&self) -> (r: String)
        ensures
            r@ == match *self {
                InternalAuthError::MissingConfig => "missing INTERNAL_API_KEY"@,
                InternalAuthError::MissingKey => "missing internal api key"@,
                InternalAuthError::InvalidKey => "invalid internal api key"@,
            },
    {
        match *self {
            InternalAuthError::MissingConfig => String::from_str("missing INTERNAL_API_KEY"),
            InternalAuthError::MissingKey => String::from_str("missing internal api key"),
            InternalAuthError::InvalidKey => String::from_str("invalid internal api key"),
        }
    }
}

/// Check the internal API key a request carries against the configured
/// one. `expected` is the configured key, absent when the service lacks
/// one; `provided` is the request header value, absent when the header is
/// missing or unreadable.
pub fn verify_internal_api_key(provided: Option<&str>, expected: Option<&str>) -> (r: Result<
    (),
    InternalAuthError,
>)
    ensures
        match expected {
            None => r == Err::<(), InternalAuthError>(InternalAuthError::MissingConfig),
            Some(exp) => match provided {
                None => r == Err::<(), InternalAuthError>(InternalAuthError::MissingKey),
                Some(got) => if got@ == exp@ {
                    r is Ok
                } else {
                    r == Err::<(), InternalAuthError>(InternalAuthError::InvalidKey)
                },
            },
        },
{
    let exp = match expected {
        Some(e) => e,
        None => {
            return Err(InternalAuthError::MissingConfig);
        },
    };
    let got = match provided {
        Some(g) => g,
        None => {
            return Err(InternalAuthError::MissingKey);
        },
    };
    if str_eq_chars(got, exp) {
        Ok(())
    } else {
        Err(InternalAuthError::InvalidKey)
    }
}

/// A password login request.
#[derive(Debug)]
pub struct LoginRequest {
    pub email: String,
    pub password: Option<String>,
}

/// What the login endpoints answer: the session material on success.
#[derive(Debug)]
pub struct AuthResponse {
    pub success: bool,
    pub message: String,
    pub token: Option<String>,
    pub refresh_token: Option<String>,
    pub expires_in: Option<i64>,
}

/// What the API tells a client about its own account.
#[derive(Debug)]
pub struct UserInfo {
    pub id: String,
    pub email: String,
    pub name: Option<String>,
    pub role: String,
}

/// The user info derived from verified claims: the subject becomes the id,
/// an absent email becomes empty, an absent role defaults to `USER`, and no
/// name is reported.
pub fn user_info_from_claims(claims: SupabaseClaims) -> (r: UserInfo)
    ensures
        r.id@ == claims.sub@,
        r.email@ == match claims.email {
            Some(e) => e@,
            None => Seq::<char>::empty(),
        },
        r.role@ == match claims.role {
            Some(ro) => ro@,
            None => "USER"@,
        },
        r.name is None,
{
    let email = match claims.email {
        Some(e) => e,
        None => String::new(),
    };
    let role = match claims.role {
        Some(ro) => ro,
        None => String::from_str("USER"),
    };
    UserInfo { id: claims.sub, email, name: None, role }
}

/// Whether a login request carries a usable password: present and not
/// blank.
pub fn login_password_ok(password: &Option<String>) -> (r: bool)
    ensures
        r == (password matches Some(p) && trim_of(p@).len() != 0),
{
    match password {
        Some(p) => trim_str(p.as_str()).unicode_len() != 0,
        None => false,
    }
}

/// The identity provider's password-grant endpoint for a base URL.
pub fn password_grant_endpoint(supabase_url: &str) -> (r: String)
    ensures
        r@ == trim_end_slash_spec(supabase_url@) + "/auth/v1/token?grant_type=password"@,
{
    trim_end_slashes(supabase_url).to_owned().concat("/auth/v1/token?grant_type=password")
}

/// The identity provider's logout endpoint for a base URL.
pub fn logout_endpoint(supabase_url: &str) -> (r: String)
    ensures
        r@ == trim_end_slash_spec(supabase_url@) + "/auth/v1/logout"@,
{
    trim_end_slashes(supabase_url).to_owned().concat("/auth/v1/logout")
}

} // verus!
