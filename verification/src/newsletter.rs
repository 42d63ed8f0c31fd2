//! The newsletter double-opt-in flow.
//!
//! Subscribing stores a `PENDING` row with hashed confirm and unsubscribe
//! tokens and mails the raw tokens; confirming by token moves the row to
//! `ACTIVE`; unsubscribing — by token or by address — moves it to
//! `UNSUBSCRIBED`. The decisions and the exact responses are verified
//! here; the caller runs the corresponding reads and writes.

use vstd::prelude::*;
use vstd::string::StrSliceExecFns;
use vstd::string::StringExecFns;
use vstd::string::StringSliceAdditionalSpecFns;

use crate::crypto::hex_of;
use crate::crypto::sha256_hash;
use crate::crypto::sha256_of;
use crate::entities::NewsletterStatus;
use crate::text::lower_of;
use crate::text::normalize_email;
use crate::text::trim_of;
use crate::text::trim_str;

verus! {

broadcast use vstd::string::group_string_axioms;

/// A request to subscribe an address.
#[derive(Debug)]
pub struct SubscribeRequest {
    pub email: String,
    pub locale: Option<String>,
}

/// A request to confirm a subscription by its mailed token.
#[derive(Debug)]
pub struct ConfirmRequest {
    pub token: String,
}

/// A request to unsubscribe, by mailed token or by address.
#[derive(Debug)]
pub struct UnsubscribeRequest {
    pub token: Option<String>,
    pub email: Option<String>,
}

/// A request for an address's subscription status.
#[derive(Debug)]
pub struct NewsletterStatusRequest {
    pub email: String,
}

/// The status report for an address.
#[derive(Debug)]
pub struct NewsletterStatusResponse {
    pub email: String,
    pub status: String,
    pub confirmed_at: Option<String>,
    pub unsubscribed_at: Option<String>,
}

/// What the newsletter endpoints answer.
#[derive(Debug)]
pub struct NewsletterResponse {
    pub success: bool,
    pub status: String,
    pub message: String,
}

/// What a subscribe request asks the store to do, given the row that
/// already exists for the address.
#[derive(Debug, Clone, Copy, PartialEq, Eq, Structural)]
pub enum SubscribePlan {
    /// The address is already `ACTIVE`: answer so, write nothing, send no
    /// mail.
    AlreadyActive,
    /// A row exists but is not active: set it back to `PENDING` with the
    /// fresh token hashes, clear its dates, and mail a confirmation.
    ResetToPending,
    /// No row exists: insert a `PENDING` row with the fresh token hashes
    /// and mail a confirmation.
    InsertPending,
}

/// Decide a subscribe request from the status of the existing row, if
/// any.
pub fn subscribe_plan(existing: Option<NewsletterStatus>) -> (r: SubscribePlan)
    ensures
        r == match existing {
            Some(NewsletterStatus::ACTIVE) => SubscribePlan::AlreadyActive,
            Some(NewsletterStatus::PENDING) => SubscribePlan::ResetToPending,
            Some(NewsletterStatus::UNSUBSCRIBED) => SubscribePlan::ResetToPending,
            None => SubscribePlan::InsertPending,
        },
{
    match existing {
        Some(NewsletterStatus::ACTIVE) => SubscribePlan::AlreadyActive,
        Some(_) => SubscribePlan::ResetToPending,
        None => SubscribePlan::InsertPending,
    }
}

/// The response a subscribe request gets for its plan.
pub fn subscribe_response(plan: SubscribePlan) -> (r: NewsletterResponse)
    ensures
        r.success,
        r.status@ == match plan {
            SubscribePlan::AlreadyActive => "ACTIVE"@,
            _ => "PENDING"@,
        },
        r.message@ == match plan {
            SubscribePlan::AlreadyActive => "Already subscribed"@,
            _ => "Check your email to confirm"@,
        },
{
    match plan {
        SubscribePlan::AlreadyActive => NewsletterResponse {
            success: true,
            status: String::from_str("ACTIVE"),
            message: String::from_str("Already subscribed"),
        },
        _ => NewsletterResponse {
            success: true,
            status: String::from_str("PENDING"),
            message: String::from_str("Check your email to confirm"),
        },
    }
}

/// The confirmation link mailed on subscribing.
pub fn confirm_link(base_url: &str, locale: &str, token: &str) -> (r: String)
    ensures
        r@ == base_url@ + "/"@ + locale@ + "/newsletter/confirm?token="@ + token@,
{
    base_url.to_owned().concat("/").concat(locale).concat("/newsletter/confirm?token=").concat(
        token,
    )
}

/// The unsubscribe link mailed on subscribing.
pub fn unsubscribe_link(base_url: &str, locale: &str, token: &str) -> (r: String)
    ensures
        r@ == base_url@ + "/"@ + locale@ + "/newsletter/unsubscribe?token="@ + token@,
{
    base_url.to_owned().concat("/").concat(locale).concat("/newsletter/unsubscribe?token=").concat(
        token,
    )
}

/// The confirmation mail's HTML body, with the two links spliced in.
pub fn confirmation_email_html(confirm_url: &str, unsubscribe_url: &str) -> (r: String)
    ensures
        r@ == "<p>Confirm your subscription to Archives.</p><p><a href=\""@ + confirm_url@
            + "\">Confirm subscription</a></p><hr /><p><a href=\""@ + unsubscribe_url@
            + "\">Unsubscribe</a></p>"@,
{
    String::from_str("<p>Confirm your subscription to Archives.</p><p><a href=\"").concat(
        confirm_url,
    ).concat("\">Confirm subscription</a></p><hr /><p><a href=\"").concat(unsubscribe_url).concat(
        "\">Unsubscribe</a></p>",
    )
}

/// The response when a confirm token matched a `PENDING` row. The row is
/// set `ACTIVE`, its confirmation date to now, its unsubscribe date and
/// confirm hash cleared.
pub fn confirm_success_response() -> (r: NewsletterResponse)
    ensures
        r.success,
        r.status@ == "ACTIVE"@,
        r.message@ == "Subscription confirmed"@,
{
    NewsletterResponse {
        success: true,
        status: String::from_str("ACTIVE"),
        message: String::from_str("Subscription confirmed"),
    }
}

/// The response when a confirm token matched nothing.
pub fn confirm_invalid_response() -> (r: NewsletterResponse)
    ensures
        !r.success,
        r.status@ == "ERROR"@,
        r.message@ == "Invalid or expired token"@,
{
    NewsletterResponse {
        success: false,
        status: String::from_str("ERROR"),
        message: String::from_str("Invalid or expired token"),
    }
}

/// What an unsubscribe request asks for, decided from its fields: a token
/// takes precedence over an address, and one of the two must be present.
#[derive(Debug)]
pub enum UnsubscribePlan {
    /// Neither token nor address: refuse the request.
    MissingParams,
    /// Look the row up by this hash of the trimmed token.
    ByToken { token_hash: String },
    /// Look the row up by this normalised address.
    ByEmail { email: String },
}

/// Decide an unsubscribe request. The token, when present, is trimmed and
/// hashed as the store hashes it; an address is normalised.
pub fn unsubscribe_plan(req: UnsubscribeRequest) -> (r: UnsubscribePlan)
    ensures
        match req.token {
            Some(t) => r matches UnsubscribePlan::ByToken { token_hash } && token_hash@ == hex_of(
                sha256_of(vstd::utf8::encode_utf8(trim_of(t@))),
            ),
            None => match req.email {
                Some(e) => r matches UnsubscribePlan::ByEmail { email } && email@ == lower_of(
                    trim_of(e@),
                ),
                None => r is MissingParams,
            },
        },
{
    match req.token {
        Some(t) => {
            let token_hash = sha256_hash(trim_str(t.as_str()));
            UnsubscribePlan::ByToken { token_hash }
        },
        None => match req.email {
            Some(e) => UnsubscribePlan::ByEmail { email: normalize_email(e.as_str()) },
            None => UnsubscribePlan::MissingParams,
        },
    }
}

/// Whether an unsubscribe-by-address must write: only when a row exists
/// and is not already `UNSUBSCRIBED`. The write sets the row
/// `UNSUBSCRIBED`, its unsubscribe date to now, and clears the confirm
/// hash.
pub fn unsubscribe_by_email_writes(existing: Option<NewsletterStatus>) -> (r: bool)
    ensures
        r == (existing matches Some(st) && st != NewsletterStatus::UNSUBSCRIBED),
{
    match existing {
        Some(st) => !matches!(st, NewsletterStatus::UNSUBSCRIBED),
        None => false,
    }
}

/// The response when an unsubscribe went through (or the address had no
/// active row to begin with).
pub fn unsubscribe_success_response() -> (r: NewsletterResponse)
    ensures
        r.success,
        r.status@ == "UNSUBSCRIBED"@,
        r.message@ == "Unsubscribed"@,
{
    NewsletterResponse {
        success: true,
        status: String::from_str("UNSUBSCRIBED"),
        message: String::from_str("Unsubscribed"),
    }
}

/// The response when an unsubscribe token matched nothing.
pub fn unsubscribe_invalid_token_response() -> (r: NewsletterResponse)
    ensures
        !r.success,
        r.status@ == "ERROR"@,
        r.message@ == "Invalid token"@,
{
    NewsletterResponse {
        success: false,
        status: String::from_str("ERROR"),
        message: String::from_str("Invalid token"),
    }
}

/// The response when an unsubscribe request named neither token nor
/// address.
pub fn unsubscribe_missing_params_response() -> (r: NewsletterResponse)
    ensures
        !r.success,
        r.status@ == "ERROR"@,
        r.message@ == "Token or email required"@,
{
    NewsletterResponse {
        success: false,
        status: String::from_str("ERROR"),
        message: String::from_str("Token or email required"),
    }
}

/// The status report for an address: an absent row reads as
/// `UNSUBSCRIBED` with no dates; a present row reports its own address,
/// status and dates (the dates preformatted by the caller).
pub fn status_view(
    record: Option<(String, NewsletterStatus, Option<String>, Option<String>)>,
    requested_email: String,
) -> (r: NewsletterStatusResponse)
    ensures
        match record {
            None => {
                &&& r.email@ == requested_email@
                &&& r.status@ == "UNSUBSCRIBED"@
                &&& r.confirmed_at is None
                &&& r.unsubscribed_at is None
            },
            Some(rec) => {
                &&& r.email@ == rec.0@
                &&& r.status@ == match rec.1 {
                    NewsletterStatus::PENDING => "PENDING"@,
                    NewsletterStatus::ACTIVE => "ACTIVE"@,
                    NewsletterStatus::UNSUBSCRIBED => "UNSUBSCRIBED"@,
                }
                &&& r.confirmed_at == rec.2
                &&& r.unsubscribed_at == rec.3
            },
        },
{
    match record {
        None => NewsletterStatusResponse {
            email: requested_email,
            status: String::from_str("UNSUBSCRIBED"),
            confirmed_at: None,
            unsubscribed_at: None,
        },
        Some((email, status, confirmed_at, unsubscribed_at)) => {
            let status_str = status.as_str().to_owned();
            NewsletterStatusResponse {
                email,
                status: status_str,
                confirmed_at,
                unsubscribed_at,
            }
        },
    }
}

} // verus!
