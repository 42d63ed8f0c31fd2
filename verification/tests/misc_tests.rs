use blog_api::admin_dm::admin_dm_thread_title;
use blog_api::admin_dm::dm_content_ok;
use blog_api::admin_dm::dm_new_message;
use blog_api::admin_dm::dm_thread_plan;
use blog_api::admin_dm::DmThreadPlan;
use blog_api::email::magic_link_template;
use blog_api::email::smtp_port_of;
use blog_api::email::EmailConfig;
use blog_api::entities::NewsletterStatus;
use blog_api::entities::Role;
use blog_api::marginalia::award_after;
use blog_api::marginalia::marginalia_content_ok;
use blog_api::marginalia::marginalia_limit;
use blog_api::onboarding::onboarding_newsletter_action;
use blog_api::onboarding::onboarding_user_update;
use blog_api::onboarding::OnboardingNewsletterAction;
use blog_api::search::normalize_top_k;
use blog_api::search::search_query_ok;
use blog_api::state::AppState;

#[test]
fn fragments_need_content_and_award_points() {
    assert!(marginalia_content_ok("a note"));
    assert!(!marginalia_content_ok("   "));
    assert_eq!(award_after(10), 25);
    assert_eq!(award_after(0), 15);
}

#[test]
fn the_list_limit_defaults_and_caps() {
    assert_eq!(marginalia_limit(None), 20);
    assert_eq!(marginalia_limit(Some(50)), 50);
    assert_eq!(marginalia_limit(Some(100)), 100);
    assert_eq!(marginalia_limit(Some(500)), 100);
    assert_eq!(marginalia_limit(Some(0)), 0);
}

#[test]
fn owner_dms_need_five_bytes() {
    assert!(!dm_content_ok("1234"));
    assert!(dm_content_ok("12345"));
    assert!(!dm_content_ok("  1234  "));
    assert!(dm_content_ok("안녕"));
}

#[test]
fn owner_dm_threads_are_found_or_created() {
    match dm_thread_plan(Some("t-1".to_string()), "fresh".to_string(), "u-1".to_string()) {
        DmThreadPlan::Existing { thread_id } => assert_eq!(thread_id, "t-1"),
        _ => panic!("expected existing thread"),
    }
    match dm_thread_plan(None, "fresh".to_string(), "u-1".to_string()) {
        DmThreadPlan::Create { thread } => {
            assert_eq!(thread.id, "fresh");
            assert_eq!(thread.title, Some("__ADMIN_DM__".to_string()));
            assert_eq!(thread.user_id, Some("u-1".to_string()));
        }
        _ => panic!("expected new thread"),
    }
    assert_eq!(admin_dm_thread_title(), "__ADMIN_DM__");

    let msg = dm_new_message("m-1".to_string(), "t-1".to_string(), "hello there".to_string());
    assert_eq!(msg.role, "user");
    assert_eq!(msg.thread_id, "t-1");
    assert_eq!(msg.content, "hello there");
}

#[test]
fn onboarding_updates_the_user_row() {
    let up = onboarding_user_update(1_700_000_000);
    assert_eq!(up.terms_accepted_at, Some(1_700_000_000));
    assert_eq!(up.onboarding_completed_at, Some(1_700_000_000));
    assert_eq!(up.newsletter_opt_in_at, Some(None));
    assert_eq!(up.ink_points, None);
    assert_eq!(up.name, None);
}

#[test]
fn onboarding_opt_in_activates_or_inserts() {
    let none = onboarding_newsletter_action(
        false,
        None,
        "u".to_string(),
        "a@b.c".to_string(),
        "fresh".to_string(),
        5,
    );
    assert!(matches!(none, OnboardingNewsletterAction::NoOptIn));

    let activate = onboarding_newsletter_action(
        true,
        Some("sub-1".to_string()),
        "u".to_string(),
        "a@b.c".to_string(),
        "fresh".to_string(),
        5,
    );
    match activate {
        OnboardingNewsletterAction::Activate { id, update } => {
            assert_eq!(id, "sub-1");
            assert_eq!(update.status, Some(NewsletterStatus::ACTIVE));
            assert_eq!(update.user_id, Some(Some("u".to_string())));
            assert_eq!(update.confirmed_at, Some(Some(5)));
            assert_eq!(update.unsubscribed_at, Some(None));
            assert_eq!(update.confirm_token_hash, Some(None));
        }
        _ => panic!("expected activation"),
    }

    let insert = onboarding_newsletter_action(
        true,
        None,
        "u".to_string(),
        "a@b.c".to_string(),
        "fresh".to_string(),
        5,
    );
    match insert {
        OnboardingNewsletterAction::Insert { row } => {
            assert_eq!(row.id, "fresh");
            assert_eq!(row.email, "a@b.c");
            assert_eq!(row.status, NewsletterStatus::ACTIVE);
            assert_eq!(row.user_id, Some("u".to_string()));
            assert_eq!(row.confirm_token_hash, None);
        }
        _ => panic!("expected insert"),
    }
}

#[test]
fn search_parameters_normalise() {
    assert!(search_query_ok("books"));
    assert!(!search_query_ok("  "));
    assert_eq!(normalize_top_k(None), 10);
    assert_eq!(normalize_top_k(Some(5)), 5);
    assert_eq!(normalize_top_k(Some(0)), 1);
    assert_eq!(normalize_top_k(Some(-3)), 1);
}

#[test]
fn defaults_of_the_enums() {
    assert_eq!(Role::default(), Role::USER);
    assert_eq!(NewsletterStatus::default(), NewsletterStatus::PENDING);
    assert_eq!(Role::ADMIN.as_str(), "ADMIN");
    assert_eq!(NewsletterStatus::UNSUBSCRIBED.as_str(), "UNSUBSCRIBED");
}

#[test]
fn the_policy_defaults_are_exact() {
    let s = AppState::new();
    assert_eq!(s.token_ttl_seconds, 86_400);
    assert_eq!(s.session_ttl_seconds, 2_592_000);
    assert_eq!(s.replay_window_seconds, 300);
    assert_eq!(s.marginalia_award_points, 15);
    assert_eq!(s.dashboard_recent_orders, 20);
    assert_eq!(s.dashboard_top_users, 10);
}

#[test]
fn smtp_settings_resolve_with_defaults() {
    assert_eq!(smtp_port_of(None), 587);
    assert_eq!(smtp_port_of(Some("2525".to_string())), 2525);
    assert_eq!(smtp_port_of(Some("junk".to_string())), 587);
    assert_eq!(smtp_port_of(Some("70000".to_string())), 587);

    let c = EmailConfig::from_values(
        None,
        Some("465".to_string()),
        Some("user".to_string()),
        Some("pass".to_string()),
        None,
        None,
    )
    .unwrap();
    assert_eq!(c.smtp_host, "smtp.gmail.com");
    assert_eq!(c.smtp_port, 465);
    assert_eq!(c.from_email, "noreply@example.com");
    assert_eq!(c.from_name, "Midnight Archives");

    let e = EmailConfig::from_values(None, None, None, Some("p".to_string()), None, None)
        .unwrap_err();
    assert_eq!(e, "SMTP_USER not set");
    let e = EmailConfig::from_values(None, None, Some("u".to_string()), None, None, None)
        .unwrap_err();
    assert_eq!(e, "SMTP_PASS not set");
}

#[test]
fn the_magic_link_mail_carries_the_url() {
    let (subject_en, body_en) = magic_link_template("http://link", "en");
    assert_eq!(subject_en, "Sign in to Midnight Archives");
    assert!(body_en.contains("<a href=\"http://link\""));
    assert!(body_en.contains("Sign In"));
    assert!(body_en.contains("This link expires in 24 hours."));

    let (subject_ko, body_ko) = magic_link_template("http://link", "ko");
    assert_eq!(subject_ko, "심야 서고 로그인 링크");
    assert!(body_ko.contains("<a href=\"http://link\""));
    assert!(body_ko.contains("로그인하기"));
}
