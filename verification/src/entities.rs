//! The data model, over plain values.
//!
//! Timestamps are Unix seconds (`i64`), and a product's money price is its
//! decimal string; the database layer outside this crate converts to and
//! from its own column types.

use vstd::prelude::*;

verus! {

broadcast use vstd::string::group_string_axioms;

/// A user's role.
#[allow(non_camel_case_types)]
#[derive(Debug, Clone, Copy, PartialEq, Eq, Structural)]
pub enum Role {
    USER,
    ADMIN,
}

impl Default for Role {
    /// New accounts start as plain users.
    fn default() -> (r: Self)
        ensures
            r == Role::USER,
    {
        Role::USER
    }
}

impl Role {
    /// The database string for this role.
    pub fn as_str(&self) -> (r: &'static str)
        ensures
            r@ == match *self {
                Role::USER => "USER"@,
                Role::ADMIN => "ADMIN"@,
            },
    {
        match *self {
            Role::USER => "USER",
            Role::ADMIN => "ADMIN",
        }
    }
}

/// Where an address stands in the newsletter double-opt-in flow.
#[allow(non_camel_case_types)]
#[derive(Debug, Clone, Copy, PartialEq, Eq, Structural)]
pub enum NewsletterStatus {
    PENDING,
    ACTIVE,
    UNSUBSCRIBED,
}

impl Default for NewsletterStatus {
    /// A fresh subscription awaits confirmation.
    fn default() -> (r: Self)
        ensures
            r == NewsletterStatus::PENDING,
    {
        NewsletterStatus::PENDING
    }
}

impl NewsletterStatus {
    /// The database string for this status.
    pub fn as_str(&self) -> (r: &'static str)
        ensures
            r@ == match *self {
                NewsletterStatus::PENDING => "PENDING"@,
                NewsletterStatus::ACTIVE => "ACTIVE"@,
                NewsletterStatus::UNSUBSCRIBED => "UNSUBSCRIBED"@,
            },
    {
        match *self {
            NewsletterStatus::PENDING => "PENDING",
            NewsletterStatus::ACTIVE => "ACTIVE",
            NewsletterStatus::UNSUBSCRIBED => "UNSUBSCRIBED",
        }
    }
}

/// A user row.
#[derive(Debug, Clone)]
pub struct User {
    pub id: String,
    pub name: Option<String>,
    pub email: Option<String>,
    pub email_verified: Option<i64>,
    pub image: Option<String>,
    pub role: Role,
    pub ink_points: i32,
    pub terms_accepted_at: Option<i64>,
    pub onboarding_completed_at: Option<i64>,
    pub newsletter_opt_in_at: Option<i64>,
    pub created_at: i64,
    pub updated_at: i64,
}

/// The fields a new user row is created with.
#[derive(Debug, Clone)]
pub struct NewUser {
    pub id: String,
    pub name: Option<String>,
    pub email: Option<String>,
    pub role: Role,
    pub ink_points: i32,
}

/// A partial update of a user row; absent fields stay as they are.
#[derive(Debug, Clone)]
pub struct UpdateUser {
    pub name: Option<String>,
    pub ink_points: Option<i32>,
    pub terms_accepted_at: Option<i64>,
    pub onboarding_completed_at: Option<i64>,
    pub newsletter_opt_in_at: Option<Option<i64>>,
}

/// A newsletter subscription row.
#[derive(Debug, Clone)]
pub struct NewsletterSubscription {
    pub id: String,
    pub email: String,
    pub status: NewsletterStatus,
    pub user_id: Option<String>,
    pub confirm_token_hash: Option<String>,
    pub unsubscribe_token_hash: Option<String>,
    pub confirmed_at: Option<i64>,
    pub unsubscribed_at: Option<i64>,
    pub created_at: i64,
    pub updated_at: i64,
}

/// The fields a new subscription row is created with.
#[derive(Debug, Clone)]
pub struct NewNewsletterSubscription {
    pub id: String,
    pub email: String,
    pub status: NewsletterStatus,
    pub user_id: Option<String>,
    pub confirm_token_hash: Option<String>,
    pub unsubscribe_token_hash: Option<String>,
}

/// A partial update of a subscription row; absent fields stay as they
/// are, and a `Some(None)` clears a nullable column.
#[derive(Debug, Clone)]
pub struct UpdateNewsletterSubscription {
    pub status: Option<NewsletterStatus>,
    pub user_id: Option<Option<String>>,
    pub confirm_token_hash: Option<Option<String>>,
    pub unsubscribe_token_hash: Option<Option<String>>,
    pub confirmed_at: Option<Option<i64>>,
    pub unsubscribed_at: Option<Option<i64>>,
}

/// A direct-message thread row.
#[derive(Debug, Clone)]
pub struct Thread {
    pub id: String,
    pub title: Option<String>,
    pub user_id: Option<String>,
    pub created_at: i64,
    pub updated_at: i64,
}

/// The fields a new thread row is created with.
#[derive(Debug, Clone)]
pub struct NewThread {
    pub id: String,
    pub title: Option<String>,
    pub user_id: Option<String>,
}

/// A message row within a thread.
#[derive(Debug, Clone)]
pub struct Message {
    pub id: String,
    pub thread_id: String,
    pub role: String,
    pub content: String,
    pub created_at: i64,
}

/// The fields a new message row is created with.
#[derive(Debug, Clone)]
pub struct NewMessage {
    pub id: String,
    pub thread_id: String,
    pub role: String,
    pub content: String,
}

/// A product row; `price` is the money price as a decimal string,
/// `point_price` the ink-point price.
#[derive(Debug, Clone)]
pub struct Product {
    pub id: String,
    pub name: String,
    pub description: String,
    pub price: String,
    pub point_price: i32,
    pub image: Option<String>,
    pub category: String,
    pub is_rare: bool,
    pub created_at: i64,
    pub updated_at: i64,
}

/// An order row.
#[derive(Debug, Clone)]
pub struct Order {
    pub id: String,
    pub user_id: String,
    pub product_id: String,
    pub status: String,
    pub created_at: i64,
}

/// The fields a new order row is created with.
#[derive(Debug, Clone)]
pub struct NewOrder {
    pub id: String,
    pub user_id: String,
    pub product_id: String,
    pub status: String,
}

/// A marginalia (reader fragment) row.
#[derive(Debug, Clone)]
pub struct Marginalia {
    pub id: String,
    pub content: String,
    pub tags: Vec<String>,
    pub user_id: String,
    pub likes: i32,
    pub created_at: i64,
}

/// The fields a new marginalia row is created with.
#[derive(Debug, Clone)]
pub struct NewMarginalia {
    pub id: String,
    pub content: String,
    pub tags: Vec<String>,
    pub user_id: String,
}

} // verus!
