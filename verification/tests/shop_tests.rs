use blog_api::shop::insufficient_points_message;
use blog_api::shop::purchase_decision;
use blog_api::shop::purchase_result_of;
use blog_api::shop::purchase_success_message;
use blog_api::shop::PurchaseError;

#[test]
fn sufficient_points_buy_the_product() {
    let r = purchase_decision(Some(100), Some(("Quill".to_string(), 40))).unwrap();
    assert_eq!(r.product_name, "Quill");
    assert_eq!(r.remaining_points, 60);
}

#[test]
fn exact_balance_buys_the_product() {
    let r = purchase_decision(Some(40), Some(("Quill".to_string(), 40))).unwrap();
    assert_eq!(r.remaining_points, 0);
}

#[test]
fn insufficient_points_are_refused() {
    let e = purchase_decision(Some(30), Some(("Quill".to_string(), 40))).unwrap_err();
    match e {
        PurchaseError::InsufficientPoints { needed, have } => {
            assert_eq!(needed, 40);
            assert_eq!(have, 30);
        }
        _ => panic!("expected insufficient points"),
    }
}

#[test]
fn missing_user_or_product_is_refused() {
    assert!(matches!(
        purchase_decision(None, Some(("Quill".to_string(), 40))),
        Err(PurchaseError::UserNotFound)
    ));
    assert!(matches!(purchase_decision(Some(10), None), Err(PurchaseError::ProductNotFound)));
}

#[test]
fn purchase_messages_are_exact() {
    assert_eq!(
        purchase_success_message("Quill"),
        "\"Quill\" 구매 완료! (Purchase successful)"
    );
    assert_eq!(
        insufficient_points_message(40, 30),
        "Insufficient Ink points. Needed: 40, Have: 30"
    );
}

#[test]
fn purchase_results_mirror_the_decision() {
    let ok = purchase_result_of(purchase_decision(Some(50), Some(("Ink".to_string(), 15))));
    assert!(ok.success);
    assert_eq!(ok.remaining_points, Some(35));
    assert_eq!(ok.message, "\"Ink\" 구매 완료! (Purchase successful)");

    let err = purchase_result_of(purchase_decision(None, Some(("Ink".to_string(), 15))));
    assert!(!err.success);
    assert_eq!(err.remaining_points, None);
    assert_eq!(err.message, "User not found");

    let poor = purchase_result_of(purchase_decision(Some(5), Some(("Ink".to_string(), 15))));
    assert!(!poor.success);
    assert_eq!(poor.message, "Insufficient Ink points. Needed: 15, Have: 5");

    let missing = purchase_result_of(purchase_decision(Some(5), None));
    assert_eq!(missing.message, "Product not found");
}
