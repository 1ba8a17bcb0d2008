//! Referral records as the store holds them.

use vstd::prelude::*;

verus! {

/// That one user referred another.
#[derive(Clone, Copy, Debug, PartialEq, Eq)]
pub struct Referral {
    /// The id of the referral.
    pub id: i64,
    /// The user who was referred.
    pub user_id: i64,
    /// The user who referred.
    pub referrer_id: i64,
    /// When the referral was made, in seconds since the Unix epoch (UTC).
    pub created_at: i64,
}

/// A code by which a user refers others.
#[derive(Clone, Debug, PartialEq, Eq)]
pub struct ReferralCode {
    /// The id of the code.
    pub id: i64,
    /// The user who owns the code.
    pub user_id: i64,
    /// The code itself.
    pub code: String,
    /// When the code was made, in seconds since the Unix epoch (UTC).
    pub created_at: i64,
}

} // verus!
