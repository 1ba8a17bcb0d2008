//! Settlement of one purchase as a state machine.
//!
//! The caller opens a transaction, hands each [`Action`] to the store, and
//! feeds back the store's answer as an [`Event`], until the machine answers
//! [`Action::Done`] (commit succeeded) or [`Action::Abort`] (roll back and
//! report). A balance credit is asked for only right after the store
//! reported that the matching grant was newly inserted.

use vstd::prelude::*;

use crate::amount::{lemma_percent_fits, level_reward, percent_of, L1_PERCENTAGE, L2_PERCENTAGE};
use crate::model::{PurchaseRec, RewardGrant, SettleError};
use crate::status::{captured_status, is_captured};

verus! {

/// The purchase row as read under its lock.
#[derive(Clone, Debug, PartialEq, Eq)]
pub struct PurchaseRow {
    pub buyer: i64,
    pub amount: i64,
    pub status: String,
}

impl View for PurchaseRow {
    type V = PurchaseRec;

    open spec fn view(&self) -> PurchaseRec {
        PurchaseRec { buyer: self.buyer, amount: self.amount, status: self.status@ }
    }
}

/// What the store answered to the last action.
#[derive(Clone, Debug, PartialEq, Eq)]
pub enum Event {
    /// The purchase row, now locked for this transaction.
    PurchaseLocked(PurchaseRow),
    /// No purchase has the requested id.
    PurchaseMissing,
    /// The requested user's referrer column.
    ReferrerOf(Option<i64>),
    /// The requested user's activity flag, or `None` when no such user exists.
    ActiveFlag(Option<bool>),
    /// Whether the grant was newly inserted (`false`: one with its key existed).
    Granted(bool),
    /// The balance credit was applied.
    Credited,
    /// The transaction committed.
    Committed,
    /// The store reported an error.
    StoreFailed,
}

/// [`Event`] with the status as characters.
pub enum EventView {
    PurchaseLocked(PurchaseRec),
    PurchaseMissing,
    ReferrerOf(Option<i64>),
    ActiveFlag(Option<bool>),
    Granted(bool),
    Credited,
    Committed,
    StoreFailed,
}

impl View for Event {
    type V = EventView;

    open spec fn view(&self) -> EventView {
        match self {
            Event::PurchaseLocked(row) => EventView::PurchaseLocked(row@),
            Event::PurchaseMissing => EventView::PurchaseMissing,
            Event::ReferrerOf(r) => EventView::ReferrerOf(*r),
            Event::ActiveFlag(a) => EventView::ActiveFlag(*a),
            Event::Granted(b) => EventView::Granted(*b),
            Event::Credited => EventView::Credited,
            Event::Committed => EventView::Committed,
            Event::StoreFailed => EventView::StoreFailed,
        }
    }
}

/// What the caller is to do next.
#[derive(Clone, Copy, Debug, PartialEq, Eq)]
pub enum Action {
    /// Lock the purchase row for update and read it.
    LockPurchase(u128),
    /// Read the referrer column of a user (the row must exist).
    FetchReferrer(i64),
    /// Read the activity flag of a user, if the user exists.
    FetchActive(i64),
    /// Insert the grant unless one with its key exists, and report which.
    InsertGrant(RewardGrant),
    /// Add `delta` to `user`'s balance, creating the balance at 0 first.
    Credit { user: i64, delta: i64 },
    /// Commit the transaction.
    Commit,
    /// Settlement is complete.
    Done,
    /// Roll the transaction back and report the error.
    Abort(SettleError),
}

/// Where a settlement stands.
#[derive(Clone, Copy, Debug, PartialEq, Eq)]
pub enum Phase {
    Locking,
    ResolvingFirst,
    CheckingFirst { candidate: i64 },
    ResolvingSecond,
    CheckingSecond { candidate: i64 },
    GrantingFirst,
    CreditingFirst,
    GrantingSecond,
    CreditingSecond,
    Committing,
    Finished,
}

/// The state of one settlement.
#[derive(Clone, Copy, Debug, PartialEq, Eq)]
pub struct Settlement {
    pub purchase: u128,
    pub buyer: i64,
    pub amount: i64,
    pub first: Option<i64>,
    pub second: Option<i64>,
    pub phase: Phase,
}

/// The state in which settling `purchase` begins.
pub open spec fn initial(purchase: u128) -> Settlement {
    Settlement { purchase, buyer: 0, amount: 0, first: None, second: None, phase: Phase::Locking }
}

/// The grant owed at `level` to `beneficiary` in settlement `m`.
pub open spec fn grant_for(m: Settlement, beneficiary: i64, level: u8) -> RewardGrant {
    RewardGrant {
        purchase: m.purchase,
        buyer: m.buyer,
        beneficiary,
        level,
        amount: level_reward(m.amount as int, level) as i64,
    }
}

/// The machine in `phase` with everything else kept.
pub open spec fn with_phase(m: Settlement, phase: Phase) -> Settlement {
    Settlement { phase, ..m }
}

/// After the levels up to `done` are dealt with: grant the next level that
/// has a beneficiary and a positive reward, or commit.
pub open spec fn proceed(m: Settlement, done: u8) -> (Settlement, Action) {
    if done < 1 && m.first is Some && level_reward(m.amount as int, 1) > 0 {
        (with_phase(m, Phase::GrantingFirst), Action::InsertGrant(grant_for(m, m.first->0, 1)))
    } else if done < 2 && m.second is Some && level_reward(m.amount as int, 2) > 0 {
        (with_phase(m, Phase::GrantingSecond), Action::InsertGrant(grant_for(m, m.second->0, 2)))
    } else {
        (with_phase(m, Phase::Committing), Action::Commit)
    }
}

/// An answer out of turn: stop and roll back.
pub open spec fn unexpected(m: Settlement) -> (Settlement, Action) {
    (with_phase(m, Phase::Finished), Action::Abort(SettleError::StoreFailure))
}

/// The next state and action after the store answered `ev`.
pub open spec fn step(m: Settlement, ev: EventView) -> (Settlement, Action) {
    match ev {
        EventView::StoreFailed => unexpected(m),
        _ => match m.phase {
            Phase::Locking => match ev {
                EventView::PurchaseLocked(rec) => {
                    let n = Settlement { buyer: rec.buyer, amount: rec.amount, ..m };
                    if rec.status == captured_status() {
                        (with_phase(n, Phase::ResolvingFirst), Action::FetchReferrer(rec.buyer))
                    } else {
                        (with_phase(n, Phase::Committing), Action::Commit)
                    }
                },
                EventView::PurchaseMissing => (
                    with_phase(m, Phase::Finished),
                    Action::Abort(SettleError::NotFound),
                ),
                _ => unexpected(m),
            },
            Phase::ResolvingFirst => match ev {
                EventView::ReferrerOf(Some(r)) => (
                    with_phase(m, Phase::CheckingFirst { candidate: r }),
                    Action::FetchActive(r),
                ),
                EventView::ReferrerOf(None) => proceed(m, 0),
                _ => unexpected(m),
            },
            Phase::CheckingFirst { candidate } => match ev {
                EventView::ActiveFlag(Some(true)) => (
                    Settlement { first: Some(candidate), phase: Phase::ResolvingSecond, ..m },
                    Action::FetchReferrer(candidate),
                ),
                EventView::ActiveFlag(_) => proceed(m, 0),
                _ => unexpected(m),
            },
            Phase::ResolvingSecond => match ev {
                EventView::ReferrerOf(Some(r)) => (
                    with_phase(m, Phase::CheckingSecond { candidate: r }),
                    Action::FetchActive(r),
                ),
                EventView::ReferrerOf(None) => proceed(m, 0),
                _ => unexpected(m),
            },
            Phase::CheckingSecond { candidate } => match ev {
                EventView::ActiveFlag(Some(true)) => proceed(Settlement { second: Some(candidate), ..m }, 0),
                EventView::ActiveFlag(_) => proceed(m, 0),
                _ => unexpected(m),
            },
            Phase::GrantingFirst => match (ev, m.first) {
                (EventView::Granted(true), Some(u)) => (
                    with_phase(m, Phase::CreditingFirst),
                    Action::Credit { user: u, delta: level_reward(m.amount as int, 1) as i64 },
                ),
                (EventView::Granted(false), _) => proceed(m, 1),
                _ => unexpected(m),
            },
            Phase::CreditingFirst => match ev {
                EventView::Credited => proceed(m, 1),
                _ => unexpected(m),
            },
            Phase::GrantingSecond => match (ev, m.second) {
                (EventView::Granted(true), Some(u)) => (
                    with_phase(m, Phase::CreditingSecond),
                    Action::Credit { user: u, delta: level_reward(m.amount as int, 2) as i64 },
                ),
                (EventView::Granted(false), _) => proceed(m, 2),
                _ => unexpected(m),
            },
            Phase::CreditingSecond => match ev {
                EventView::Credited => proceed(m, 2),
                _ => unexpected(m),
            },
            Phase::Committing => match ev {
                EventView::Committed => (with_phase(m, Phase::Finished), Action::Done),
                _ => unexpected(m),
            },
            Phase::Finished => unexpected(m),
        },
    }
}

impl Settlement {
    /// Begins settling `purchase`: the first action locks its row.
    pub fn start(purchase: u128) -> (r: (Settlement, Action))
        ensures
            r == (initial(purchase), Action::LockPurchase(purchase)),
    {
        (
            Settlement { purchase, buyer: 0, amount: 0, first: None, second: None, phase: Phase::Locking },
            Action::LockPurchase(purchase),
        )
    }

    /// The reward owed at `level` (1 or 2).
    fn reward(&self, level: u8) -> (r: i64)
        requires
            level == 1 || level == 2,
        ensures
            r == level_reward(self.amount as int, level),
    {
        if level == 1 {
            proof { lemma_percent_fits(self.amount as int, L1_PERCENTAGE as int); }
            percent_of(self.amount, L1_PERCENTAGE)
        } else {
            proof { lemma_percent_fits(self.amount as int, L2_PERCENTAGE as int); }
            percent_of(self.amount, L2_PERCENTAGE)
        }
    }

    /// Moves on after the levels up to `done` are dealt with.
    fn proceed(&mut self, done: u8) -> (a: Action)
        ensures
            (*final(self), a) == proceed(*old(self), done),
    {
        if done < 1 && self.first.is_some() && self.reward(1) > 0 {
            let u: i64 = self.first.unwrap();
            let amount: i64 = self.reward(1);
            self.phase = Phase::GrantingFirst;
            Action::InsertGrant(RewardGrant {
                purchase: self.purchase,
                buyer: self.buyer,
                beneficiary: u,
                level: 1,
                amount,
            })
        } else if done < 2 && self.second.is_some() && self.reward(2) > 0 {
            let u: i64 = self.second.unwrap();
            let amount: i64 = self.reward(2);
            self.phase = Phase::GrantingSecond;
            Action::InsertGrant(RewardGrant {
                purchase: self.purchase,
                buyer: self.buyer,
                beneficiary: u,
                level: 2,
                amount,
            })
        } else {
            self.phase = Phase::Committing;
            Action::Commit
        }
    }

    /// Stops on an answer out of turn.
    fn fail(&mut self) -> (a: Action)
        ensures
            (*final(self), a) == unexpected(*old(self)),
    {
        self.phase = Phase::Finished;
        Action::Abort(SettleError::StoreFailure)
    }

    /// Takes the store's answer to the last action and returns the next action.
    pub fn on_event(&mut self, ev: Event) -> (a: Action)
        ensures
            (*final(self), a) == step(*old(self), ev@),
    {
        if let Event::StoreFailed = ev {
            return self.fail();
        }
        match self.phase {
            Phase::Locking => match ev {
                Event::PurchaseLocked(row) => {
                    self.buyer = row.buyer;
                    self.amount = row.amount;
                    if is_captured(row.status.as_str()) {
                        self.phase = Phase::ResolvingFirst;
                        Action::FetchReferrer(row.buyer)
                    } else {
                        self.phase = Phase::Committing;
                        Action::Commit
                    }
                },
                Event::PurchaseMissing => {
                    self.phase = Phase::Finished;
                    Action::Abort(SettleError::NotFound)
                },
                _ => self.fail(),
            },
            Phase::ResolvingFirst => match ev {
                Event::ReferrerOf(Some(r)) => {
                    self.phase = Phase::CheckingFirst { candidate: r };
                    Action::FetchActive(r)
                },
                Event::ReferrerOf(None) => self.proceed(0),
                _ => self.fail(),
            },
            Phase::CheckingFirst { candidate } => match ev {
                Event::ActiveFlag(Some(true)) => {
                    self.first = Some(candidate);
                    self.phase = Phase::ResolvingSecond;
                    Action::FetchReferrer(candidate)
                },
                Event::ActiveFlag(_) => self.proceed(0),
                _ => self.fail(),
            },
            Phase::ResolvingSecond => match ev {
                Event::ReferrerOf(Some(r)) => {
                    self.phase = Phase::CheckingSecond { candidate: r };
                    Action::FetchActive(r)
                },
                Event::ReferrerOf(None) => self.proceed(0),
                _ => self.fail(),
            },
            Phase::CheckingSecond { candidate } => match ev {
                Event::ActiveFlag(Some(true)) => {
                    self.second = Some(candidate);
                    self.proceed(0)
                },
                Event::ActiveFlag(_) => self.proceed(0),
                _ => self.fail(),
            },
            Phase::GrantingFirst => match (ev, self.first) {
                (Event::Granted(true), Some(u)) => {
                    let delta: i64 = self.reward(1);
                    self.phase = Phase::CreditingFirst;
                    Action::Credit { user: u, delta }
                },
                (Event::Granted(false), _) => self.proceed(1),
                _ => self.fail(),
            },
            Phase::CreditingFirst => match ev {
                Event::Credited => self.proceed(1),
                _ => self.fail(),
            },
            Phase::GrantingSecond => match (ev, self.second) {
                (Event::Granted(true), Some(u)) => {
                    let delta: i64 = self.reward(2);
                    self.phase = Phase::CreditingSecond;
                    Action::Credit { user: u, delta }
                },
                (Event::Granted(false), _) => self.proceed(2),
                _ => self.fail(),
            },
            Phase::CreditingSecond => match ev {
                Event::Credited => self.proceed(2),
                _ => self.fail(),
            },
            Phase::Committing => match ev {
                Event::Committed => {
                    self.phase = Phase::Finished;
                    Action::Done
                },
                _ => self.fail(),
            },
            Phase::Finished => self.fail(),
        }
    }
}

} // verus!
