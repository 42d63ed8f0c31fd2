//! Parameter handling for the search proxy.
//!
//! The search itself runs in the retrieval service; what is decided here
//! is how a request's parameters are normalised before they are passed
//! on.

use vstd::prelude::*;
use vstd::string::StrSliceExecFns;

use crate::text::trim_of;
use crate::text::trim_str;

verus! {

/// Whether a search query is usable: not blank.
pub fn search_query_ok(query: &str) -> (r: bool)
    ensures
        r == (trim_of(query@).len() != 0),
{
    trim_str(query).unicode_len() != 0
}

/// The result count a request resolves to: ten when unstated, and at
/// least one.
pub fn normalize_top_k(top_k: Option<i32>) -> (r: i32)
    ensures
        r == match top_k {
            Some(k) => if k >= 1 {
                k
            } else {
                1i32
            },
            None => 10i32,
        },
{
    match top_k {
        Some(k) => if k >= 1 {
            k
        } else {
            1
        },
        None => 10,
    }
}

} // verus!
