//! The points-shop purchase rule.
//!
//! A purchase debits a user's ink-point balance by the product's point
//! price, atomically with recording the order; the decision here says
//! exactly when the purchase goes through and what balance remains. The
//! caller runs the decision inside its database transaction.

use vstd::prelude::*;
use vstd::string::StringExecFns;

use crate::text::fmt_i32;
use crate::text::int_dec;

verus! {

broadcast use vstd::string::group_string_axioms;

/// A product as the shop lists it; the money price is its decimal string.
#[derive(Debug)]
pub struct ProductDto {
    pub id: String,
    pub name: String,
    pub description: String,
    pub price: String,
    pub point_price: i32,
    pub image: Option<String>,
    pub category: String,
    pub is_rare: bool,
}

/// A request for a user's point balance.
#[derive(Debug)]
pub struct InkPointsRequest {
    pub user_id: String,
}

/// The balance answer; absent when the user is unknown.
#[derive(Debug)]
pub struct InkPointsResponse {
    pub ink_points: Option<i32>,
}

/// A request to buy a product with points.
#[derive(Debug)]
pub struct BuyProductRequest {
    pub user_id: String,
    pub product_id: String,
}

/// A request for a user's order history.
#[derive(Debug)]
pub struct UserOrdersRequest {
    pub user_id: String,
}

/// Why a purchase was refused.
#[derive(Debug)]
pub enum PurchaseError {
    /// No such user row.
    UserNotFound,
    /// No such product row.
    ProductNotFound,
    /// The balance does not cover the point price.
    InsufficientPoints { needed: i32, have: i32 },
}

/// An approved purchase: the product bought and the balance to write back.
#[derive(Debug)]
pub struct PurchaseApproval {
    pub product_name: String,
    pub remaining_points: i32,
}

/// Decide a purchase from the user's balance and the product row, both as
/// the transaction read them. Success exactly when both exist and the
/// balance covers the price; the new balance is the old one minus the
/// price.
pub fn purchase_decision(user_points: Option<i32>, product: Option<(String, i32)>) -> (r: Result<
    PurchaseApproval,
    PurchaseError,
>)
    requires
        product matches Some(pr) ==> pr.1 >= 0,
    ensures
        match r {
            Ok(a) => {
                &&& user_points matches Some(pts)
                &&& product matches Some(pr)
                &&& pts >= pr.1
                &&& a.remaining_points == pts - pr.1
                &&& a.product_name@ == pr.0@
            },
            Err(e) => match e {
                PurchaseError::UserNotFound => user_points is None,
                PurchaseError::ProductNotFound => user_points is Some && product is None,
                PurchaseError::InsufficientPoints { needed, have } => {
                    &&& user_points matches Some(pts)
                    &&& product matches Some(pr)
                    &&& pts < pr.1
                    &&& needed == pr.1
                    &&& have == pts
                },
            },
        },
{
    let pts = match user_points {
        Some(p) => p,
        None => {
            return Err(PurchaseError::UserNotFound);
        },
    };
    let (name, price) = match product {
        Some(pr) => pr,
        None => {
            return Err(PurchaseError::ProductNotFound);
        },
    };
    if pts < price {
        return Err(PurchaseError::InsufficientPoints { needed: price, have: pts });
    }
    Ok(PurchaseApproval { product_name: name, remaining_points: pts - price })
}

/// What the shop answers a purchase request with.
#[derive(Debug)]
pub struct PurchaseResult {
    pub success: bool,
    pub message: String,
    pub remaining_points: Option<i32>,
}

/// The message confirming a purchase.
pub fn purchase_success_message(product_name: &str) -> (r: String)
    ensures
        r@ == "\""@ + product_name@ + "\" 구매 완료! (Purchase successful)"@,
{
    String::from_str("\"").concat(product_name).concat(
        "\" 구매 완료! (Purchase successful)",
    )
}

/// The message refusing a purchase for want of points.
pub fn insufficient_points_message(needed: i32, have: i32) -> (r: String)
    ensures
        r@ == "Insufficient Ink points. Needed: "@ + int_dec(needed as int) + ", Have: "@ + int_dec(
            have as int,
        ),
{
    String::from_str("Insufficient Ink points. Needed: ").concat(fmt_i32(needed).as_str()).concat(
        ", Have: ",
    ).concat(fmt_i32(have).as_str())
}

/// Turn a purchase decision into the response body the shop returns.
pub fn purchase_result_of(r: Result<PurchaseApproval, PurchaseError>) -> (out: PurchaseResult)
    ensures
        match r {
            Ok(a) => {
                &&& out.success
                &&& out.remaining_points == Some(a.remaining_points)
                &&& out.message@ == "\""@ + a.product_name@
                    + "\" 구매 완료! (Purchase successful)"@
            },
            Err(e) => {
                &&& !out.success
                &&& out.remaining_points is None
                &&& out.message@ == match e {
                    PurchaseError::UserNotFound => "User not found"@,
                    PurchaseError::ProductNotFound => "Product not found"@,
                    PurchaseError::InsufficientPoints { needed, have } => {
                        "Insufficient Ink points. Needed: "@ + int_dec(needed as int) + ", Have: "@
                            + int_dec(have as int)
                    },
                }
            },
        },
{
    match r {
        Ok(a) => {
            let message = purchase_success_message(a.product_name.as_str());
            PurchaseResult {
                success: true,
                message,
                remaining_points: Some(a.remaining_points),
            }
        },
        Err(PurchaseError::UserNotFound) => PurchaseResult {
            success: false,
            message: String::from_str("User not found"),
            remaining_points: None,
        },
        Err(PurchaseError::ProductNotFound) => PurchaseResult {
            success: false,
            message: String::from_str("Product not found"),
            remaining_points: None,
        },
        Err(PurchaseError::InsufficientPoints { needed, have }) => PurchaseResult {
            success: false,
            message: insufficient_points_message(needed, have),
            remaining_points: None,
        },
    }
}

} // verus!
