use blog_api::crypto::sha256_hash;
use blog_api::entities::NewsletterStatus;
use blog_api::newsletter::confirm_invalid_response;
use blog_api::newsletter::confirm_link;
use blog_api::newsletter::confirm_success_response;
use blog_api::newsletter::confirmation_email_html;
use blog_api::newsletter::status_view;
use blog_api::newsletter::subscribe_plan;
use blog_api::newsletter::subscribe_response;
use blog_api::newsletter::unsubscribe_by_email_writes;
use blog_api::newsletter::unsubscribe_invalid_token_response;
use blog_api::newsletter::unsubscribe_link;
use blog_api::newsletter::unsubscribe_missing_params_response;
use blog_api::newsletter::unsubscribe_plan;
use blog_api::newsletter::unsubscribe_success_response;
use blog_api::newsletter::SubscribePlan;
use blog_api::newsletter::UnsubscribePlan;
use blog_api::newsletter::UnsubscribeRequest;

#[test]
fn subscribing_depends_on_the_existing_row() {
    assert_eq!(subscribe_plan(Some(NewsletterStatus::ACTIVE)), SubscribePlan::AlreadyActive);
    assert_eq!(subscribe_plan(Some(NewsletterStatus::PENDING)), SubscribePlan::ResetToPending);
    assert_eq!(
        subscribe_plan(Some(NewsletterStatus::UNSUBSCRIBED)),
        SubscribePlan::ResetToPending
    );
    assert_eq!(subscribe_plan(None), SubscribePlan::InsertPending);
}

#[test]
fn subscribe_responses_are_exact() {
    let active = subscribe_response(SubscribePlan::AlreadyActive);
    assert!(active.success);
    assert_eq!(active.status, "ACTIVE");
    assert_eq!(active.message, "Already subscribed");

    let pending = subscribe_response(SubscribePlan::InsertPending);
    assert!(pending.success);
    assert_eq!(pending.status, "PENDING");
    assert_eq!(pending.message, "Check your email to confirm");
}

#[test]
fn mailed_links_are_exact() {
    assert_eq!(
        confirm_link("http://localhost:7071", "ko", "tok123"),
        "http://localhost:7071/ko/newsletter/confirm?token=tok123"
    );
    assert_eq!(
        unsubscribe_link("http://localhost:7071", "en", "tok456"),
        "http://localhost:7071/en/newsletter/unsubscribe?token=tok456"
    );
}

#[test]
fn confirmation_mail_carries_both_links() {
    let html = confirmation_email_html("http://c", "http://u");
    assert_eq!(
        html,
        "<p>Confirm your subscription to Archives.</p><p><a href=\"http://c\">Confirm subscription</a></p><hr /><p><a href=\"http://u\">Unsubscribe</a></p>"
    );
}

#[test]
fn confirm_responses_are_exact() {
    let ok = confirm_success_response();
    assert!(ok.success);
    assert_eq!(ok.status, "ACTIVE");
    assert_eq!(ok.message, "Subscription confirmed");

    let bad = confirm_invalid_response();
    assert!(!bad.success);
    assert_eq!(bad.status, "ERROR");
    assert_eq!(bad.message, "Invalid or expired token");
}

#[test]
fn unsubscribe_prefers_the_token() {
    let plan = unsubscribe_plan(UnsubscribeRequest {
        token: Some("  tok  ".to_string()),
        email: Some("ignored@x.y".to_string()),
    });
    match plan {
        UnsubscribePlan::ByToken { token_hash } => {
            assert_eq!(token_hash, sha256_hash("tok"));
        }
        _ => panic!("expected token plan"),
    }
}

#[test]
fn unsubscribe_by_email_normalises() {
    let plan = unsubscribe_plan(UnsubscribeRequest {
        token: None,
        email: Some(" Foo@X.Y ".to_string()),
    });
    match plan {
        UnsubscribePlan::ByEmail { email } => assert_eq!(email, "foo@x.y"),
        _ => panic!("expected email plan"),
    }
}

#[test]
fn unsubscribe_needs_token_or_email() {
    assert!(matches!(
        unsubscribe_plan(UnsubscribeRequest { token: None, email: None }),
        UnsubscribePlan::MissingParams
    ));
}

#[test]
fn unsubscribe_by_email_writes_only_active_rows() {
    assert!(unsubscribe_by_email_writes(Some(NewsletterStatus::ACTIVE)));
    assert!(unsubscribe_by_email_writes(Some(NewsletterStatus::PENDING)));
    assert!(!unsubscribe_by_email_writes(Some(NewsletterStatus::UNSUBSCRIBED)));
    assert!(!unsubscribe_by_email_writes(None));
}

#[test]
fn unsubscribe_responses_are_exact() {
    let ok = unsubscribe_success_response();
    assert!(ok.success);
    assert_eq!(ok.status, "UNSUBSCRIBED");
    assert_eq!(ok.message, "Unsubscribed");

    let bad = unsubscribe_invalid_token_response();
    assert!(!bad.success);
    assert_eq!(bad.message, "Invalid token");

    let missing = unsubscribe_missing_params_response();
    assert!(!missing.success);
    assert_eq!(missing.message, "Token or email required");
}

#[test]
fn status_of_an_unknown_address_reads_unsubscribed() {
    let r = status_view(None, "who@x.y".to_string());
    assert_eq!(r.email, "who@x.y");
    assert_eq!(r.status, "UNSUBSCRIBED");
    assert_eq!(r.confirmed_at, None);
    assert_eq!(r.unsubscribed_at, None);
}

#[test]
fn status_of_a_known_address_reports_its_row() {
    let r = status_view(
        Some((
            "a@b.c".to_string(),
            NewsletterStatus::ACTIVE,
            Some("2024-01-01T00:00:00+00:00".to_string()),
            None,
        )),
        "requested@x.y".to_string(),
    );
    assert_eq!(r.email, "a@b.c");
    assert_eq!(r.status, "ACTIVE");
    assert_eq!(r.confirmed_at, Some("2024-01-01T00:00:00+00:00".to_string()));
    assert_eq!(r.unsubscribed_at, None);
}
