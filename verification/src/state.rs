//! The service's fixed policy, bundled as its shared state.
//!
//! The connection pool and other handles live outside this crate; what
//! the handlers share from here are the policy constants the verified
//! decisions are stated over.

use vstd::prelude::*;

use crate::magic_link::SESSION_TTL_SECONDS;
use crate::magic_link::TOKEN_TTL_SECONDS;
use crate::marginalia::MARGINALIA_AWARD_POINTS;

verus! {

/// The policy the service runs under.
#[derive(Debug, Clone, Copy, PartialEq, Eq, Structural)]
pub struct AppState {
    /// How long a magic-link token lives, in seconds.
    pub token_ttl_seconds: i64,
    /// How long a session lives, in seconds.
    pub session_ttl_seconds: i64,
    /// How far a webhook timestamp may lie from the clock, in seconds.
    pub replay_window_seconds: i64,
    /// The points a saved fragment awards.
    pub marginalia_award_points: i32,
    /// How many recent orders the dashboard shows.
    pub dashboard_recent_orders: usize,
    /// How many top users the dashboard shows.
    pub dashboard_top_users: usize,
}

impl AppState {
    /// The policy the service ships with.
    pub fn new() -> (s: Self)
        ensures
            s.token_ttl_seconds == 86400,
            s.session_ttl_seconds == 2592000,
            s.replay_window_seconds == 300,
            s.marginalia_award_points == 15,
            s.dashboard_recent_orders == 20,
            s.dashboard_top_users == 10,
    {
        AppState {
            token_ttl_seconds: TOKEN_TTL_SECONDS,
            session_ttl_seconds: SESSION_TTL_SECONDS,
            replay_window_seconds: 300,
            marginalia_award_points: MARGINALIA_AWARD_POINTS,
            dashboard_recent_orders: 20,
            dashboard_top_users: 10,
        }
    }
}

} // verus!
