//! Verified core of a blog/community backend.
//!
//! The crate holds the decision and computation logic of the service: webhook
//! signature checking, the points-shop purchase rule, the newsletter
//! double-opt-in state machine, magic-link token handling, and the small
//! validations and aggregations the HTTP handlers rely on. I/O (database,
//! SMTP, HTTP) stays outside; handlers feed plain values in and carry the
//! decisions out.

pub mod admin;
pub mod admin_dm;
pub mod auth;
pub mod chat;
pub mod checkout;
pub mod crypto;
pub mod email;
pub mod entities;
pub mod magic_link;
pub mod marginalia;
pub mod newsletter;
pub mod onboarding;
pub mod search;
pub mod shop;
pub mod state;
pub mod text;
pub mod webhook;

