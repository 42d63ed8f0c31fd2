use blog_api::checkout::checkout_email_ok;
use blog_api::checkout::shop_redirect_urls;
use blog_api::checkout::unit_amount_from_decimal;
use blog_api::checkout::unit_amount_or_default;

#[test]
fn decimal_prices_become_cents() {
    assert_eq!(unit_amount_from_decimal("10.99"), Some(1099));
    assert_eq!(unit_amount_from_decimal("10"), Some(1000));
    assert_eq!(unit_amount_from_decimal("10.9"), Some(1090));
    assert_eq!(unit_amount_from_decimal("10.999"), Some(1099));
    assert_eq!(unit_amount_from_decimal("0.5"), Some(50));
    assert_eq!(unit_amount_from_decimal("0"), Some(0));
    assert_eq!(unit_amount_from_decimal("0.00"), Some(0));
}

#[test]
fn unreadable_prices_are_refused() {
    assert_eq!(unit_amount_from_decimal("abc"), None);
    assert_eq!(unit_amount_from_decimal(""), None);
    assert_eq!(unit_amount_from_decimal("1.x"), None);
    assert_eq!(unit_amount_from_decimal("."), None);
}

#[test]
fn negative_prices_follow_the_same_rule() {
    assert_eq!(unit_amount_from_decimal("-5.25"), Some(-475));
    assert_eq!(unit_amount_from_decimal("-5"), Some(-500));
}

#[test]
fn huge_prices_saturate() {
    assert_eq!(unit_amount_from_decimal("9223372036854775807.99"), Some(i64::MAX));
    assert_eq!(unit_amount_from_decimal("92233720368547758079"), None);
}

#[test]
fn the_fallback_price_is_1000_cents() {
    assert_eq!(unit_amount_or_default("2.50"), 250);
    assert_eq!(unit_amount_or_default("not a price"), 1000);
}

#[test]
fn checkout_needs_an_address() {
    assert!(checkout_email_ok("a@b.c"));
    assert!(!checkout_email_ok("   "));
    assert!(!checkout_email_ok(""));
}

#[test]
fn redirect_urls_are_exact() {
    let (success, cancel) = shop_redirect_urls("http://localhost:7071", "ko");
    assert_eq!(success, "http://localhost:7071/ko/shop?success=true");
    assert_eq!(cancel, "http://localhost:7071/ko/shop?canceled=true");
}
