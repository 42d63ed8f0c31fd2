//! Saving and listing reader fragments (marginalia).
//!
//! Saving a fragment awards a fixed number of ink points to its author,
//! atomically with the insert; listing clamps the requested page size.

use vstd::prelude::*;
use vstd::string::StrSliceExecFns;

use crate::text::trim_of;
use crate::text::trim_str;

verus! {

/// The points a saved fragment awards its author.
pub const MARGINALIA_AWARD_POINTS: i32 = 15;

/// A request to save a fragment.
#[derive(Debug)]
pub struct SaveMarginaliaRequest {
    pub user_id: String,
    pub content: String,
    pub tags: Vec<String>,
}

/// The answer to a save request.
#[derive(Debug)]
pub struct SaveMarginaliaResponse {
    pub success: bool,
    pub message: String,
}

/// The list request's parameters.
#[derive(Debug)]
pub struct ListMarginaliaQuery {
    pub limit: Option<i64>,
}

/// One listed fragment; the date is preformatted by the caller.
#[derive(Debug)]
pub struct MarginaliaItem {
    pub id: String,
    pub content: String,
    pub tags: Vec<String>,
    pub created_at: String,
}

/// The answer to a list request.
#[derive(Debug)]
pub struct ListMarginaliaResponse {
    pub items: Vec<MarginaliaItem>,
}

/// Whether a fragment may be saved: its content must not be blank.
pub fn marginalia_content_ok(content: &str) -> (r: bool)
    ensures
        r == (trim_of(content@).len() != 0),
{
    trim_str(content).unicode_len() != 0
}

/// The author's balance after the award for a saved fragment.
pub fn award_after(points: i32) -> (r: i32)
    requires
        points <= i32::MAX - MARGINALIA_AWARD_POINTS,
    ensures
        r == points + MARGINALIA_AWARD_POINTS,
{
    points + MARGINALIA_AWARD_POINTS
}

/// The page size a list request resolves to: twenty when unstated, and
/// never more than one hundred.
pub fn marginalia_limit(limit: Option<i64>) -> (r: i64)
    ensures
        r == match limit {
            Some(l) => if l < 100 {
                l
            } else {
                100i64
            },
            None => 20i64,
        },
{
    match limit {
        Some(l) => if l < 100 {
            l
        } else {
            100
        },
        None => 20,
    }
}

} // verus!
