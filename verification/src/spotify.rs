//! Keeping a user's Spotify access token fresh.
use vstd::prelude::*;

use crate::database::{offset_in_range, spec_expired_offset, Account, DatabaseError};

verus! {

/// The errors of the Spotify service.
#[derive(Debug, Clone, PartialEq, Eq)]
pub enum Error {
    Database(DatabaseError),
    Spotify(String),
    /// Failed to refresh spotify token
    RefreshTokenFailure,
}

/// How early before it expires an access token is refreshed, in milliseconds.
pub const REFRESH_MARGIN_MS: i64 = 60_000;

/// What to do to hand out a user's access token.
#[derive(Debug, PartialEq, Eq)]
pub enum TokenPlan {
    /// The stored token is good: hand it out.
    Use(String),
    /// The stored token (nearly) expired: refresh it with this refresh token.
    Refresh(String),
}

/// Decides, at time `now`, whether a stored access token can be handed out or
/// must first be refreshed: it is refreshed from one minute before it expires.
pub fn token_plan(account: Account, now: i64) -> (r: TokenPlan)
    requires
        offset_in_range(account.expires, REFRESH_MARGIN_MS),
    ensures
        if spec_expired_offset(account.expires, now, REFRESH_MARGIN_MS) {
            r matches TokenPlan::Refresh(t) && t == account.refresh_token
        } else {
            r matches TokenPlan::Use(t) && t == account.access_token
        },
{
    if account.expired_offset_at(now, REFRESH_MARGIN_MS) {
        TokenPlan::Refresh(account.refresh_token)
    } else {
        TokenPlan::Use(account.access_token)
    }
}

/// A token that Spotify handed out on refresh.
#[derive(Debug, Clone, PartialEq, Eq)]
pub struct RefreshedToken {
    pub access_token: String,
    pub refresh_token: Option<String>,
    pub expires_at: Option<i64>,
}

/// What to do after asking Spotify for a new token.
#[derive(Debug, PartialEq, Eq)]
pub enum RefreshStep {
    /// Store the new token (and the new refresh token, if one came), then hand
    /// out the stored access token.
    Store { access_token: String, refresh_token: Option<String>, expires: i64 },
    /// Delete the account, whose credentials no longer work, and fail with
    /// `RefreshTokenFailure`.
    Fail,
}

/// Decides what follows a refresh attempt: `None` stands for a failed attempt
/// or one that gave no token.
pub fn refresh_step(outcome: Option<RefreshedToken>) -> (r: RefreshStep)
    requires
        outcome matches Some(t) ==> t.expires_at is Some,
    ensures
        match outcome {
            None => r == RefreshStep::Fail,
            Some(t) => r == (RefreshStep::Store {
                access_token: t.access_token,
                refresh_token: t.refresh_token,
                expires: t.expires_at->0,
            }),
        },
{
    match outcome {
        None => RefreshStep::Fail,
        Some(t) => {
            let expires = match t.expires_at {
                Some(e) => e,
                None => {
                    proof {
                        assert(false);
                    }
                    0
                },
            };
            RefreshStep::Store { access_token: t.access_token, refresh_token: t.refresh_token, expires }
        },
    }
}

} // verus!
