use referral_system::settlement::Phase;
use referral_system::{
    percent_of, Action, Event, PurchaseRow, RewardGrant, SettleError, Settlement, L1_PERCENTAGE,
    L2_PERCENTAGE,
};

/// A store held in memory that answers the machine's actions inside a
/// transaction: writes go to a working copy that a commit keeps and an
/// abort drops.
#[derive(Clone, Debug, PartialEq, Eq)]
struct MemStore {
    purchases: Vec<(u128, PurchaseRow)>,
    users: Vec<(i64, Option<i64>, bool)>,
    grants: Vec<RewardGrant>,
    balances: Vec<(i64, i64)>,
}

impl MemStore {
    fn new() -> MemStore {
        MemStore { purchases: vec![], users: vec![], grants: vec![], balances: vec![] }
    }

    fn user(mut self, id: i64, referrer: Option<i64>, active: bool) -> MemStore {
        self.users.push((id, referrer, active));
        self
    }

    fn purchase(mut self, id: u128, buyer: i64, amount: i64, status: &str) -> MemStore {
        self.purchases.push((id, PurchaseRow { buyer, amount, status: status.to_string() }));
        self
    }

    fn balance(&self, user: i64) -> i64 {
        self.balances.iter().find(|b| b.0 == user).map(|b| b.1).unwrap_or(0)
    }

    fn answer(&mut self, action: Action) -> Event {
        match action {
            Action::LockPurchase(p) => match self.purchases.iter().find(|r| r.0 == p) {
                Some(r) => Event::PurchaseLocked(r.1.clone()),
                None => Event::PurchaseMissing,
            },
            Action::FetchReferrer(u) => match self.users.iter().find(|r| r.0 == u) {
                Some(r) => Event::ReferrerOf(r.1),
                None => Event::StoreFailed,
            },
            Action::FetchActive(u) => Event::ActiveFlag(self.users.iter().find(|r| r.0 == u).map(|r| r.2)),
            Action::InsertGrant(g) => {
                let taken = self
                    .grants
                    .iter()
                    .any(|x| x.purchase == g.purchase && x.beneficiary == g.beneficiary && x.level == g.level);
                if !taken {
                    self.grants.push(g);
                }
                Event::Granted(!taken)
            }
            Action::Credit { user, delta } => {
                match self.balances.iter_mut().find(|b| b.0 == user) {
                    Some(b) => b.1 += delta,
                    None => self.balances.push((user, delta)),
                }
                Event::Credited
            }
            Action::Commit => Event::Committed,
            Action::Done | Action::Abort(_) => Event::StoreFailed,
        }
    }

    fn settle(&mut self, purchase: u128) -> Result<(), SettleError> {
        let mut work = self.clone();
        let (mut machine, mut action) = Settlement::start(purchase);
        loop {
            match action {
                Action::Done => {
                    *self = work;
                    return Ok(());
                }
                Action::Abort(e) => return Err(e),
                _ => {
                    let ev = work.answer(action);
                    action = machine.on_event(ev);
                }
            }
        }
    }
}

fn chain(r1_active: bool, r2_active: bool) -> MemStore {
    MemStore::new()
        .user(1, Some(2), true)
        .user(2, Some(3), r1_active)
        .user(3, None, r2_active)
        .purchase(77, 1, 1000, "captured")
}

fn grant(purchase: u128, buyer: i64, beneficiary: i64, level: u8, amount: i64) -> RewardGrant {
    RewardGrant { purchase, buyer, beneficiary, level, amount }
}

#[test]
fn percent_of_exact_values() {
    assert_eq!(percent_of(1000, 10), 100);
    assert_eq!(percent_of(999, 10), 99);
    assert_eq!(percent_of(0, 10), 0);
    assert_eq!(percent_of(1000, 5), 50);
    assert_eq!(percent_of(19, 5), 0);
    assert_eq!(percent_of(-999, 10), -100);
    assert_eq!(percent_of(i64::MAX, 10), i64::MAX / 10);
    assert_eq!(L1_PERCENTAGE, 10);
    assert_eq!(L2_PERCENTAGE, 5);
}

#[test]
fn settles_two_levels_once() {
    let mut s = chain(true, true);
    assert_eq!(s.settle(77), Ok(()));
    assert_eq!(s.grants, vec![grant(77, 1, 2, 1, 100), grant(77, 1, 3, 2, 50)]);
    assert_eq!(s.balance(2), 100);
    assert_eq!(s.balance(3), 50);
    assert_eq!(s.balance(1), 0);
}

#[test]
fn inactive_first_referrer_stops_chain() {
    for r2_active in [true, false] {
        let mut s = chain(false, r2_active);
        let before = s.clone();
        assert_eq!(s.settle(77), Ok(()));
        assert_eq!(s, before);
        assert!(s.grants.is_empty());
        assert_eq!(s.balance(2), 0);
        assert_eq!(s.balance(3), 0);
    }
}

#[test]
fn absent_first_referrer_stops_chain() {
    let mut s = MemStore::new().user(1, None, true).user(3, None, true).purchase(5, 1, 1000, "captured");
    let before = s.clone();
    assert_eq!(s.settle(5), Ok(()));
    assert_eq!(s, before);
}

#[test]
fn missing_first_referrer_row_stops_chain() {
    let mut s = MemStore::new().user(1, Some(9), true).purchase(5, 1, 1000, "captured");
    let before = s.clone();
    assert_eq!(s.settle(5), Ok(()));
    assert_eq!(s, before);
}

#[test]
fn inactive_second_referrer_gets_nothing() {
    let mut s = chain(true, false);
    assert_eq!(s.settle(77), Ok(()));
    assert_eq!(s.grants, vec![grant(77, 1, 2, 1, 100)]);
    assert_eq!(s.balance(2), 100);
    assert_eq!(s.balance(3), 0);
}

#[test]
fn settling_twice_changes_nothing_more() {
    let mut s = chain(true, true);
    assert_eq!(s.settle(77), Ok(()));
    let once = s.clone();
    assert_eq!(s.settle(77), Ok(()));
    assert_eq!(s, once);
    assert_eq!(s.grants.len(), 2);
    assert_eq!(s.balance(2), 100);
    assert_eq!(s.balance(3), 50);
}

#[test]
fn settling_many_times_equals_once() {
    let mut s = chain(true, true);
    for _ in 0..8 {
        assert_eq!(s.settle(77), Ok(()));
    }
    assert_eq!(s.grants.len(), 2);
    assert_eq!(s.balance(2), 100);
    assert_eq!(s.balance(3), 50);
}

#[test]
fn status_other_than_captured_is_no_op() {
    for status in ["authorized", "refunded", "voided", "Captured", "capture", ""] {
        let mut s = chain(true, true);
        s.purchases[0].1.status = status.to_string();
        let before = s.clone();
        assert_eq!(s.settle(77), Ok(()));
        assert_eq!(s, before);
    }
}

#[test]
fn missing_purchase_is_not_found() {
    let mut s = chain(true, true);
    let before = s.clone();
    assert_eq!(s.settle(78), Err(SettleError::NotFound));
    assert_eq!(s, before);
}

#[test]
fn missing_buyer_is_store_failure() {
    let mut s = MemStore::new().purchase(5, 4, 1000, "captured");
    let before = s.clone();
    assert_eq!(s.settle(5), Err(SettleError::StoreFailure));
    assert_eq!(s, before);
}

#[test]
fn zero_rewards_are_not_granted() {
    let mut s = chain(true, true);
    s.purchases[0].1.amount = 9;
    assert_eq!(s.settle(77), Ok(()));
    assert!(s.grants.is_empty());
    assert!(s.balances.is_empty());

    let mut t = chain(true, true);
    t.purchases[0].1.amount = 10;
    assert_eq!(t.settle(77), Ok(()));
    assert_eq!(t.grants, vec![grant(77, 1, 2, 1, 1)]);
    assert_eq!(t.balance(2), 1);
    assert_eq!(t.balance(3), 0);
}

#[test]
fn existing_grant_is_not_credited_again() {
    let mut s = chain(true, true);
    s.grants.push(grant(77, 1, 2, 1, 100));
    assert_eq!(s.settle(77), Ok(()));
    assert_eq!(s.balance(2), 0);
    assert_eq!(s.balance(3), 50);
}

#[test]
fn self_referral_pays_both_levels() {
    let mut s = MemStore::new().user(1, Some(2), true).user(2, Some(2), true).purchase(3, 1, 1000, "captured");
    assert_eq!(s.settle(3), Ok(()));
    assert_eq!(s.grants, vec![grant(3, 1, 2, 1, 100), grant(3, 1, 2, 2, 50)]);
    assert_eq!(s.balance(2), 150);
}

#[test]
fn separate_purchases_add_up() {
    let mut s = chain(true, true).purchase(78, 1, 200, "captured");
    assert_eq!(s.settle(77), Ok(()));
    assert_eq!(s.settle(78), Ok(()));
    assert_eq!(s.balance(2), 120);
    assert_eq!(s.balance(3), 60);
}

#[test]
fn machine_steps_in_order() {
    let (mut m, a) = Settlement::start(9);
    assert_eq!(a, Action::LockPurchase(9));
    assert_eq!(m.phase, Phase::Locking);
    let row = PurchaseRow { buyer: 1, amount: 1000, status: "captured".to_string() };
    assert_eq!(m.on_event(Event::PurchaseLocked(row)), Action::FetchReferrer(1));
    assert_eq!(m.on_event(Event::ReferrerOf(Some(2))), Action::FetchActive(2));
    assert_eq!(m.on_event(Event::ActiveFlag(Some(true))), Action::FetchReferrer(2));
    assert_eq!(m.on_event(Event::ReferrerOf(Some(3))), Action::FetchActive(3));
    assert_eq!(m.on_event(Event::ActiveFlag(Some(true))), Action::InsertGrant(grant(9, 1, 2, 1, 100)));
    assert_eq!(m.on_event(Event::Granted(true)), Action::Credit { user: 2, delta: 100 });
    assert_eq!(m.on_event(Event::Credited), Action::InsertGrant(grant(9, 1, 3, 2, 50)));
    assert_eq!(m.on_event(Event::Granted(false)), Action::Commit);
    assert_eq!(m.on_event(Event::Committed), Action::Done);
    assert_eq!(m.phase, Phase::Finished);
}

#[test]
fn store_failure_aborts() {
    let (mut m, _) = Settlement::start(9);
    let row = PurchaseRow { buyer: 1, amount: 1000, status: "captured".to_string() };
    assert_eq!(m.on_event(Event::PurchaseLocked(row)), Action::FetchReferrer(1));
    assert_eq!(m.on_event(Event::StoreFailed), Action::Abort(SettleError::StoreFailure));
}

#[test]
fn answer_out_of_turn_aborts() {
    let (mut m, _) = Settlement::start(9);
    assert_eq!(m.on_event(Event::Credited), Action::Abort(SettleError::StoreFailure));
    let (mut n, _) = Settlement::start(9);
    assert_eq!(n.on_event(Event::PurchaseMissing), Action::Abort(SettleError::NotFound));
}

#[test]
fn failed_commit_aborts() {
    let (mut m, _) = Settlement::start(9);
    let row = PurchaseRow { buyer: 1, amount: 1000, status: "voided".to_string() };
    assert_eq!(m.on_event(Event::PurchaseLocked(row)), Action::Commit);
    assert_eq!(m.on_event(Event::StoreFailed), Action::Abort(SettleError::StoreFailure));
}
