//! An abstract model of the transactional store that settlement works
//! against, and what one settlement does to it.

use vstd::prelude::*;

use crate::amount::level_reward;
use crate::status::captured_status;

verus! {

/// Why a settlement did not complete.
#[derive(Clone, Copy, Debug, PartialEq, Eq)]
pub enum SettleError {
    /// The purchase does not exist.
    NotFound,
    /// The store failed, or answered out of turn; the transaction was aborted.
    StoreFailure,
}

/// A reward paid for one purchase to one beneficiary at one level.
#[derive(Clone, Copy, Debug, PartialEq, Eq)]
pub struct RewardGrant {
    pub purchase: u128,
    pub buyer: i64,
    pub beneficiary: i64,
    pub level: u8,
    pub amount: i64,
}

/// A purchase as the store holds it.
pub struct PurchaseRec {
    pub buyer: i64,
    pub amount: i64,
    pub status: Seq<char>,
}

/// A user as the store holds it.
pub struct UserRec {
    pub referrer: Option<i64>,
    pub active: bool,
}

/// The contents of the store: purchases and users (read only to settlement),
/// reward grants keyed by (purchase, beneficiary, level), and balances.
pub struct StoreModel {
    pub purchases: Map<u128, PurchaseRec>,
    pub users: Map<i64, UserRec>,
    pub grants: Map<(u128, i64, u8), RewardGrant>,
    pub balances: Map<i64, int>,
}

/// The unique key of a grant.
pub open spec fn grant_key(g: RewardGrant) -> (u128, i64, u8) {
    (g.purchase, g.beneficiary, g.level)
}

/// A user's balance; a user without a balance row has 0.
pub open spec fn balance_of(s: StoreModel, user: i64) -> int {
    if s.balances.contains_key(user) {
        s.balances[user]
    } else {
        0
    }
}

/// The store after adding `delta` to `user`'s balance, creating it at 0 first.
pub open spec fn credit(s: StoreModel, user: i64, delta: int) -> StoreModel {
    StoreModel { balances: s.balances.insert(user, balance_of(s, user) + delta), ..s }
}

/// The store after inserting `g` unless a grant with its key exists.
pub open spec fn insert_if_absent(s: StoreModel, g: RewardGrant) -> StoreModel {
    if s.grants.contains_key(grant_key(g)) {
        s
    } else {
        StoreModel { grants: s.grants.insert(grant_key(g), g), ..s }
    }
}

/// Grant `g` once: if its amount is positive and no grant has its key,
/// record it and credit the beneficiary by its amount; otherwise nothing.
pub open spec fn grant_once(s: StoreModel, g: RewardGrant) -> StoreModel {
    if g.amount > 0 && !s.grants.contains_key(grant_key(g)) {
        credit(insert_if_absent(s, g), g.beneficiary, g.amount as int)
    } else {
        s
    }
}

/// The referrer of `user`, if `user` has one and that referrer exists and is active.
pub open spec fn active_referrer(s: StoreModel, user: i64) -> Option<i64> {
    match s.users[user].referrer {
        Some(r) => if s.users.contains_key(r) && s.users[r].active {
            Some(r)
        } else {
            None
        },
        None => None,
    }
}

/// The grant owed at `level` to `beneficiary` for purchase `p`.
pub open spec fn owed_grant(p: u128, rec: PurchaseRec, beneficiary: i64, level: u8) -> RewardGrant {
    RewardGrant {
        purchase: p,
        buyer: rec.buyer,
        beneficiary,
        level,
        amount: level_reward(rec.amount as int, level) as i64,
    }
}

/// What settling purchase `p` does to store `s`: the store as committed, or
/// the error (the store is then unchanged).
///
/// A missing purchase is `NotFound`. A purchase that is not captured leaves
/// the store as it is. Otherwise the buyer's active referrer is granted the
/// first-level reward once, and that referrer's own active referrer the
/// second-level reward once; a missing or inactive first-level referrer
/// stops the chain. A missing buyer row is a store failure.
pub open spec fn settle_model(s: StoreModel, p: u128) -> Result<StoreModel, SettleError> {
    if !s.purchases.contains_key(p) {
        Err(SettleError::NotFound)
    } else {
        let rec = s.purchases[p];
        if rec.status != captured_status() {
            Ok(s)
        } else if !s.users.contains_key(rec.buyer) {
            Err(SettleError::StoreFailure)
        } else {
            match active_referrer(s, rec.buyer) {
                None => Ok(s),
                Some(u1) => {
                    let s1 = grant_once(s, owed_grant(p, rec, u1, 1));
                    match active_referrer(s, u1) {
                        None => Ok(s1),
                        Some(u2) => Ok(grant_once(s1, owed_grant(p, rec, u2, 2))),
                    }
                },
            }
        }
    }
}

} // verus!
