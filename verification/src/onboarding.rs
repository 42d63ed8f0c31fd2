//! Completing a new account's onboarding.
//!
//! The user must accept the terms; the user row then records the
//! acceptance and completion times. When the user also opts into the
//! newsletter, an existing subscription row is activated and linked to the
//! account, or a fresh active row is inserted.

use vstd::prelude::*;

use crate::entities::NewNewsletterSubscription;
use crate::entities::NewsletterStatus;
use crate::entities::UpdateNewsletterSubscription;
use crate::entities::UpdateUser;

verus! {

/// A request to finish onboarding.
#[derive(Debug)]
pub struct CompleteOnboardingRequest {
    pub user_id: String,
    pub email: String,
    pub accept_terms: bool,
    pub newsletter_opt_in: bool,
}

/// The answer to an onboarding request.
#[derive(Debug)]
pub struct CompleteOnboardingResponse {
    pub success: bool,
    pub message: String,
}

/// The user-row update onboarding performs: both timestamps set to now,
/// and the newsletter opt-in time cleared (it is set again only if the
/// opt-in path below confirms a subscription).
pub fn onboarding_user_update(now: i64) -> (r: UpdateUser)
    ensures
        r.name is None,
        r.ink_points is None,
        r.terms_accepted_at == Some(now),
        r.onboarding_completed_at == Some(now),
        r.newsletter_opt_in_at == Some(Option::<i64>::None),
{
    UpdateUser {
        name: None,
        ink_points: None,
        terms_accepted_at: Some(now),
        onboarding_completed_at: Some(now),
        newsletter_opt_in_at: Some(None),
    }
}

/// What the opt-in does to the subscription table.
#[derive(Debug)]
pub enum OnboardingNewsletterAction {
    /// The user did not opt in: nothing to do.
    NoOptIn,
    /// Activate the existing row with this id, applying the update.
    Activate { id: String, update: UpdateNewsletterSubscription },
    /// Insert this fresh active row, then stamp its confirmation time.
    Insert { row: NewNewsletterSubscription },
}

/// Decide the newsletter side of onboarding from the opt-in flag, the
/// existing subscription row's id for the address (if any), the account,
/// the normalised address, a fresh row id, and the current time.
pub fn onboarding_newsletter_action(
    opt_in: bool,
    existing_id: Option<String>,
    user_id: String,
    email: String,
    fresh_id: String,
    now: i64,
) -> (r: OnboardingNewsletterAction)
    ensures
        !opt_in ==> r is NoOptIn,
        opt_in ==> match existing_id {
            Some(id) => {
                &&& r matches OnboardingNewsletterAction::Activate { id: rid, update }
                &&& rid@ == id@
                &&& update.status == Some(NewsletterStatus::ACTIVE)
                &&& update.user_id matches Some(u) && u matches Some(uu) && uu@ == user_id@
                &&& update.confirmed_at == Some(Some(now))
                &&& update.unsubscribed_at == Some(Option::<i64>::None)
                &&& update.confirm_token_hash matches Some(h) && h is None
                &&& update.unsubscribe_token_hash is None
            },
            None => {
                &&& r matches OnboardingNewsletterAction::Insert { row }
                &&& row.id@ == fresh_id@
                &&& row.email@ == email@
                &&& row.status == NewsletterStatus::ACTIVE
                &&& row.user_id matches Some(u) && u@ == user_id@
                &&& row.confirm_token_hash is None
                &&& row.unsubscribe_token_hash is None
            },
        },
{
    if !opt_in {
        return OnboardingNewsletterAction::NoOptIn;
    }
    match existing_id {
        Some(id) => OnboardingNewsletterAction::Activate {
            id,
            update: UpdateNewsletterSubscription {
                status: Some(NewsletterStatus::ACTIVE),
                user_id: Some(Some(user_id)),
                confirm_token_hash: Some(None),
                unsubscribe_token_hash: None,
                confirmed_at: Some(Some(now)),
                unsubscribed_at: Some(None),
            },
        },
        None => OnboardingNewsletterAction::Insert {
            row: NewNewsletterSubscription {
                id: fresh_id,
                email,
                status: NewsletterStatus::ACTIVE,
                user_id: Some(user_id),
                confirm_token_hash: None,
                unsubscribe_token_hash: None,
            },
        },
    }
}

} // verus!
