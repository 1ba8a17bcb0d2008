//! What settlement guarantees, proved over the store model: the machine
//! driven against a store that answers faithfully commits exactly what
//! [`settle_model`] describes, and settlement is idempotent, gated on the
//! captured status, and stops the referral chain at the first missing or
//! inactive link.

use vstd::prelude::*;

use crate::amount::{lemma_percent_fits, level_reward};
use crate::model::{
    active_referrer, balance_of, credit, grant_key, grant_once, insert_if_absent, owed_grant,
    settle_model, RewardGrant, SettleError, StoreModel,
};
use crate::settlement::{grant_for, initial, proceed, step, Action, EventView, Phase, Settlement};
use crate::status::captured_status;

verus! {

/// How a store that holds `w` answers action `a`, and what it holds after.
pub open spec fn answer(w: StoreModel, a: Action) -> (StoreModel, EventView) {
    match a {
        Action::LockPurchase(p) => (w, if w.purchases.contains_key(p) {
            EventView::PurchaseLocked(w.purchases[p])
        } else {
            EventView::PurchaseMissing
        }),
        Action::FetchReferrer(u) => (w, if w.users.contains_key(u) {
            EventView::ReferrerOf(w.users[u].referrer)
        } else {
            EventView::StoreFailed
        }),
        Action::FetchActive(u) => (w, EventView::ActiveFlag(if w.users.contains_key(u) {
            Some(w.users[u].active)
        } else {
            None
        })),
        Action::InsertGrant(g) => (
            insert_if_absent(w, g),
            EventView::Granted(!w.grants.contains_key(grant_key(g))),
        ),
        Action::Credit { user, delta } => (credit(w, user, delta as int), EventView::Credited),
        Action::Commit => (w, EventView::Committed),
        _ => (w, EventView::StoreFailed),
    }
}

/// A bound on the steps left from `phase`.
pub open spec fn rank(phase: Phase) -> nat {
    match phase {
        Phase::Locking => 10,
        Phase::ResolvingFirst => 9,
        Phase::CheckingFirst { .. } => 8,
        Phase::ResolvingSecond => 7,
        Phase::CheckingSecond { .. } => 6,
        Phase::GrantingFirst => 5,
        Phase::CreditingFirst => 4,
        Phase::GrantingSecond => 3,
        Phase::CreditingSecond => 2,
        Phase::Committing => 1,
        Phase::Finished => 0,
    }
}

/// The result of driving machine `m`, whose pending action is `a`, against
/// a store holding `w` inside a transaction: the committed store, or the
/// error on abort.
pub open spec fn run(m: Settlement, a: Action, w: StoreModel) -> Result<StoreModel, SettleError>
    decreases rank(m.phase),
{
    match a {
        Action::Done => Ok(w),
        Action::Abort(e) => Err(e),
        _ => {
            let (w2, ev) = answer(w, a);
            let (m2, a2) = step(m, ev);
            if rank(m2.phase) < rank(m.phase) {
                run(m2, a2, w2)
            } else {
                Err(SettleError::StoreFailure)
            }
        },
    }
}

/// The store after granting, once, the reward owed at `level` in `m` to
/// the beneficiary in `who`, if there is one.
pub open spec fn grant_opt(w: StoreModel, m: Settlement, who: Option<i64>, level: u8) -> StoreModel {
    match who {
        Some(u) => grant_once(w, grant_for(m, u, level)),
        None => w,
    }
}

proof fn lemma_run_commit(m: Settlement, w: StoreModel)
    requires
        m.phase == Phase::Committing,
    ensures
        run(m, Action::Commit, w) == Ok::<StoreModel, SettleError>(w),
{
    reveal_with_fuel(run, 2);
}

proof fn lemma_run_second(m: Settlement, w: StoreModel)
    requires
        rank(m.phase) >= 4,
    ensures
        run(proceed(m, 1).0, proceed(m, 1).1, w) == Ok::<StoreModel, SettleError>(
            grant_opt(w, m, m.second, 2),
        ),
{
    lemma_percent_fits(m.amount as int, 5);
    let (m1, a1) = proceed(m, 1);
    if m.second is Some && level_reward(m.amount as int, 2) > 0 {
        let g = grant_for(m, m.second->0, 2);
        let (w2, ev) = answer(w, a1);
        let (m2, a2) = step(m1, ev);
        assert(a1 == Action::InsertGrant(g));
        assert(run(m1, a1, w) == run(m2, a2, w2));
        if w.grants.contains_key(grant_key(g)) {
            lemma_run_commit(m2, w2);
        } else {
            let (w3, ev3) = answer(w2, a2);
            let (m3, a3) = step(m2, ev3);
            assert(run(m2, a2, w2) == run(m3, a3, w3));
            lemma_run_commit(m3, w3);
            assert(w3 == grant_once(w, g));
        }
    } else {
        lemma_run_commit(m1, w);
    }
}

proof fn lemma_run_first(m: Settlement, w: StoreModel)
    requires
        rank(m.phase) >= 6,
    ensures
        run(proceed(m, 0).0, proceed(m, 0).1, w) == Ok::<StoreModel, SettleError>(
            grant_opt(grant_opt(w, m, m.first, 1), m, m.second, 2),
        ),
{
    lemma_percent_fits(m.amount as int, 10);
    lemma_percent_fits(m.amount as int, 5);
    let (m1, a1) = proceed(m, 0);
    if m.first is Some && level_reward(m.amount as int, 1) > 0 {
        let g = grant_for(m, m.first->0, 1);
        let (w2, ev) = answer(w, a1);
        let (m2, a2) = step(m1, ev);
        assert(a1 == Action::InsertGrant(g));
        assert(run(m1, a1, w) == run(m2, a2, w2));
        if w.grants.contains_key(grant_key(g)) {
            lemma_run_second(m1, w2);
        } else {
            let (w3, ev3) = answer(w2, a2);
            let (m3, a3) = step(m2, ev3);
            assert(run(m2, a2, w2) == run(m3, a3, w3));
            lemma_run_second(m2, w3);
            assert(w3 == grant_once(w, g));
        }
    } else {
        lemma_run_second(m, w);
        assert(proceed(m, 0) == proceed(m, 1));
    }
}

/// Driving the machine from its start against a store that answers
/// faithfully commits exactly what `settle_model` describes, or aborts with
/// the error that it gives (and then nothing is committed).
pub proof fn lemma_run_is_settle(s: StoreModel, p: u128)
    ensures
        run(initial(p), Action::LockPurchase(p), s) == settle_model(s, p),
{
    let m0 = initial(p);
    let a0 = Action::LockPurchase(p);
    let (w1, ev1) = answer(s, a0);
    let (m1, a1) = step(m0, ev1);
    assert(run(m0, a0, s) == run(m1, a1, w1));
    if !s.purchases.contains_key(p) {
        return;
    }
    let rec = s.purchases[p];
    if rec.status != captured_status() {
        lemma_run_commit(m1, s);
        return;
    }
    let (w2, ev2) = answer(s, a1);
    let (m2, a2) = step(m1, ev2);
    assert(run(m1, a1, s) == run(m2, a2, w2));
    if !s.users.contains_key(rec.buyer) {
        return;
    }
    match s.users[rec.buyer].referrer {
        None => {
            lemma_run_first(m1, s);
        },
        Some(r) => {
            let (w3, ev3) = answer(s, a2);
            let (m3, a3) = step(m2, ev3);
            assert(run(m2, a2, s) == run(m3, a3, w3));
            if !(s.users.contains_key(r) && s.users[r].active) {
                lemma_run_first(m2, s);
                return;
            }
            assert(grant_for(m3, r, 1) == owed_grant(p, rec, r, 1));
            let (w4, ev4) = answer(s, a3);
            let (m4, a4) = step(m3, ev4);
            assert(run(m3, a3, s) == run(m4, a4, w4));
            match s.users[r].referrer {
                None => {
                    lemma_run_first(m3, s);
                },
                Some(r2) => {
                    let (w5, ev5) = answer(s, a4);
                    let (m5, a5) = step(m4, ev5);
                    assert(run(m4, a4, s) == run(m5, a5, w5));
                    if s.users.contains_key(r2) && s.users[r2].active {
                        let m6 = Settlement { second: Some(r2), ..m4 };
                        lemma_run_first(m6, s);
                        assert(grant_for(m6, r2, 2) == owed_grant(p, rec, r2, 2));
                    } else {
                        lemma_run_first(m4, s);
                    }
                },
            }
        },
    }
}

/// The store after one call of settlement: the committed store, or the
/// store unchanged when the call failed.
pub open spec fn store_after(s: StoreModel, p: u128) -> StoreModel {
    match settle_model(s, p) {
        Ok(t) => t,
        Err(_) => s,
    }
}

/// The store after `n` calls of settlement of `p`, one after another.
/// Concurrent calls for one purchase are serialized by the lock on its row,
/// so this is also the store after `n` concurrent calls.
pub open spec fn settle_times(s: StoreModel, p: u128, n: nat) -> StoreModel
    decreases n,
{
    if n == 0 {
        s
    } else {
        settle_times(store_after(s, p), p, (n - 1) as nat)
    }
}

proof fn lemma_grant_once_keeps_key(s: StoreModel, g: RewardGrant, k: (u128, i64, u8))
    requires
        s.grants.contains_key(k),
    ensures
        grant_once(s, g).grants.contains_key(k),
        grant_once(s, g).purchases == s.purchases,
        grant_once(s, g).users == s.users,
{
}

proof fn lemma_grant_once_settles_key(s: StoreModel, g: RewardGrant)
    ensures
        grant_once(grant_once(s, g), g) == grant_once(s, g),
        g.amount > 0 ==> grant_once(s, g).grants.contains_key(grant_key(g)),
        grant_once(s, g).purchases == s.purchases,
        grant_once(s, g).users == s.users,
{
}

/// Settling a purchase a second time changes nothing: the store after two
/// calls equals the store after one (so do the balances in it).
pub proof fn lemma_settle_idempotent(s: StoreModel, p: u128)
    ensures
        store_after(store_after(s, p), p) == store_after(s, p),
{
    match settle_model(s, p) {
        Err(_) => {},
        Ok(t) => {
            let rec = s.purchases[p];
            if rec.status == captured_status() {
                match active_referrer(s, rec.buyer) {
                    None => {},
                    Some(u1) => {
                        let g1 = owed_grant(p, rec, u1, 1);
                        let s1 = grant_once(s, g1);
                        lemma_grant_once_settles_key(s, g1);
                        match active_referrer(s, u1) {
                            None => {
                                assert(settle_model(s1, p) == Ok::<StoreModel, SettleError>(s1));
                            },
                            Some(u2) => {
                                let g2 = owed_grant(p, rec, u2, 2);
                                let s2 = grant_once(s1, g2);
                                lemma_grant_once_settles_key(s1, g2);
                                if g1.amount > 0 {
                                    lemma_grant_once_keeps_key(s1, g2, grant_key(g1));
                                }
                                assert(grant_once(s2, g1) == s2);
                                if g2.amount > 0 {
                                    assert(s2.grants.contains_key(grant_key(g2)));
                                }
                                assert(grant_once(s2, g2) == s2);
                                assert(settle_model(s2, p) == Ok::<StoreModel, SettleError>(s2));
                            },
                        }
                    },
                }
            }
        },
    }
}

/// Settling a purchase any positive number of times, one after another or
/// concurrently, leaves the store as settling it once does.
pub proof fn lemma_settle_many_times(s: StoreModel, p: u128, n: nat)
    requires
        n >= 1,
    ensures
        settle_times(s, p, n) == store_after(s, p),
{
    lemma_settle_idempotent(s, p);
    lemma_settle_many_times_fixed(store_after(s, p), p, (n - 1) as nat);
}

proof fn lemma_settle_many_times_fixed(t: StoreModel, p: u128, n: nat)
    requires
        store_after(t, p) == t,
    ensures
        settle_times(t, p, n) == t,
    decreases n,
{
    if n > 0 {
        lemma_settle_many_times_fixed(t, p, (n - 1) as nat);
    }
}

/// Settling an existing purchase whose status is not the captured status
/// succeeds and leaves the store unchanged: no grant and no credit.
pub proof fn lemma_uncaptured_is_no_op(s: StoreModel, p: u128)
    requires
        s.purchases.contains_key(p),
        s.purchases[p].status != captured_status(),
    ensures
        settle_model(s, p) == Ok::<StoreModel, SettleError>(s),
{
}

/// When the buyer has no referrer, or the referrer is missing or inactive,
/// settlement succeeds without any grant or credit, at either level,
/// whatever the second-level candidate is.
pub proof fn lemma_chain_stops_at_first_link(s: StoreModel, p: u128)
    requires
        s.purchases.contains_key(p),
        s.users.contains_key(s.purchases[p].buyer),
        active_referrer(s, s.purchases[p].buyer) is None,
    ensures
        settle_model(s, p) == Ok::<StoreModel, SettleError>(s),
{
}

/// Every grant that settlement creates has a strictly positive amount, the
/// reward owed at its level, and belongs to the settled purchase and its buyer.
pub proof fn lemma_new_grants_are_owed(s: StoreModel, p: u128, k: (u128, i64, u8))
    requires
        settle_model(s, p) is Ok,
        settle_model(s, p)->Ok_0.grants.contains_key(k),
        !s.grants.contains_key(k),
    ensures
        ({
            let g = settle_model(s, p)->Ok_0.grants[k];
            &&& g.amount > 0
            &&& grant_key(g) == k
            &&& k.0 == p
            &&& g.buyer == s.purchases[p].buyer
            &&& (k.2 == 1 || k.2 == 2)
            &&& g.amount == level_reward(s.purchases[p].amount as int, k.2)
        }),
{
    lemma_percent_fits(s.purchases[p].amount as int, 10);
    lemma_percent_fits(s.purchases[p].amount as int, 5);
}

/// The amount of the grant for purchase `p` to `user` at `level` that `t`
/// holds and `s` does not; 0 if there is none.
pub open spec fn new_grant_amount(s: StoreModel, t: StoreModel, p: u128, user: i64, level: u8) -> int {
    let k = (p, user, level);
    if t.grants.contains_key(k) && !s.grants.contains_key(k) {
        t.grants[k].amount as int
    } else {
        0
    }
}

proof fn lemma_grant_once_effect(s: StoreModel, g: RewardGrant)
    ensures
        forall|k| #[trigger] s.grants.contains_key(k) ==> grant_once(s, g).grants.contains_key(k)
            && grant_once(s, g).grants[k] == s.grants[k],
        forall|k| #[trigger] grant_once(s, g).grants.contains_key(k) && !s.grants.contains_key(k)
            ==> k == grant_key(g) && grant_once(s, g).grants[k] == g && g.amount > 0,
        forall|u: i64| #[trigger] balance_of(grant_once(s, g), u) == balance_of(s, u) + (if u == g.beneficiary
            && grant_once(s, g).grants.contains_key(grant_key(g)) && !s.grants.contains_key(grant_key(g)) {
            g.amount as int
        } else {
            0
        }),
{
}

/// Grants are never changed or removed, and each balance grows by exactly
/// the amounts of the grants that the settlement newly recorded for that
/// user: a credit happens if and only if its grant was newly inserted.
pub proof fn lemma_credits_match_new_grants(s: StoreModel, p: u128, user: i64)
    requires
        settle_model(s, p) is Ok,
    ensures
        ({
            let t = settle_model(s, p)->Ok_0;
            &&& forall|k| #[trigger] s.grants.contains_key(k) ==> t.grants.contains_key(k) && t.grants[k] == s.grants[k]
            &&& balance_of(t, user) == balance_of(s, user) + new_grant_amount(s, t, p, user, 1)
                + new_grant_amount(s, t, p, user, 2)
        }),
{
    let rec = s.purchases[p];
    if rec.status == captured_status() {
        match active_referrer(s, rec.buyer) {
            None => {},
            Some(u1) => {
                let g1 = owed_grant(p, rec, u1, 1);
                let s1 = grant_once(s, g1);
                lemma_grant_once_effect(s, g1);
                match active_referrer(s, u1) {
                    None => {
                        assert(balance_of(s1, user) == balance_of(s, user) + new_grant_amount(s, s1, p, user, 1)
                            + new_grant_amount(s, s1, p, user, 2));
                    },
                    Some(u2) => {
                        let g2 = owed_grant(p, rec, u2, 2);
                        let s2 = grant_once(s1, g2);
                        lemma_grant_once_effect(s1, g2);
                        assert(balance_of(s1, user) == balance_of(s, user) + new_grant_amount(s, s1, p, user, 1));
                        assert(new_grant_amount(s, s2, p, user, 1) == new_grant_amount(s, s1, p, user, 1));
                        assert(balance_of(s2, user) == balance_of(s1, user) + new_grant_amount(s, s2, p, user, 2));
                    },
                }
            },
        }
    }
}

/// The machine asks for a balance credit only in answer to the store's
/// report that the grant it asked for was newly inserted, and credits that
/// grant's beneficiary by that grant's amount.
pub proof fn lemma_credit_follows_new_grant(m: Settlement, ev: EventView)
    requires
        step(m, ev).1 is Credit,
    ensures
        ev == EventView::Granted(true),
        m.phase == Phase::GrantingFirst ==> m.first == Some(step(m, ev).1->user)
            && step(m, ev).1->delta == level_reward(m.amount as int, 1),
        m.phase == Phase::GrantingSecond ==> m.second == Some(step(m, ev).1->user)
            && step(m, ev).1->delta == level_reward(m.amount as int, 2),
        m.phase == Phase::GrantingFirst || m.phase == Phase::GrantingSecond,
{
    lemma_percent_fits(m.amount as int, 10);
    lemma_percent_fits(m.amount as int, 5);
}

} // verus!
