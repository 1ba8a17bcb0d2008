//! Reward amounts: a percentage of a purchase amount, rounded down.

use vstd::prelude::*;

verus! {

/// The percentage paid to the first-level referrer.
pub const L1_PERCENTAGE: i32 = 10;

/// The percentage paid to the second-level referrer.
pub const L2_PERCENTAGE: i32 = 5;

/// `percent` percent of `amount`, rounded down (toward negative infinity).
pub open spec fn percent_spec(amount: int, percent: int) -> int {
    (amount * percent) / 100
}

/// The percentage that pays the referrer at `level` (1 or 2); 0 for any other level.
pub open spec fn level_percent(level: u8) -> int {
    if level == 1 {
        L1_PERCENTAGE as int
    } else if level == 2 {
        L2_PERCENTAGE as int
    } else {
        0
    }
}

/// The reward owed at `level` for a purchase of `amount`.
pub open spec fn level_reward(amount: int, level: u8) -> int {
    percent_spec(amount, level_percent(level))
}

/// A percentage between 0 and 100 of an `i64` amount is again an `i64`.
pub proof fn lemma_percent_fits(amount: int, percent: int)
    requires
        i64::MIN <= amount <= i64::MAX,
        0 <= percent <= 100,
    ensures
        i64::MIN <= percent_spec(amount, percent) <= i64::MAX,
        amount >= 0 ==> 0 <= percent_spec(amount, percent) <= amount,
{
    if amount >= 0 {
        assert(0 <= amount * percent <= amount * 100) by (nonlinear_arith)
            requires
                amount >= 0,
                0 <= percent <= 100,
        ;
        assert((amount * 100) / 100 == amount) by (nonlinear_arith);
        assert((amount * percent) / 100 <= (amount * 100) / 100) by (nonlinear_arith)
            requires
                amount * percent <= amount * 100,
        ;
    } else {
        assert(amount * 100 <= amount * percent <= 0) by (nonlinear_arith)
            requires
                amount < 0,
                0 <= percent <= 100,
        ;
        assert((amount * 100) / 100 == amount) by (nonlinear_arith);
        assert((amount * 100) / 100 <= (amount * percent) / 100) by (nonlinear_arith)
            requires
                amount * 100 <= amount * percent,
        ;
    }
}

/// `percent` percent of `amount`, rounded down, computed in 128 bits so
/// that the product cannot overflow.
pub fn percent_of(amount: i64, percent: i32) -> (r: i64)
    requires
        i64::MIN <= percent_spec(amount as int, percent as int) <= i64::MAX,
    ensures
        r == percent_spec(amount as int, percent as int),
{
    let a: i128 = amount as i128;
    let p: i128 = percent as i128;
    assert(-0x8000_0000_0000_0000_0000_0000 <= a * p <= 0x7fff_ffff_ffff_ffff_ffff_ffff) by (nonlinear_arith)
        requires
            i64::MIN <= a <= i64::MAX,
            i32::MIN <= p <= i32::MAX,
    ;
    let product: i128 = a * p;
    if product >= 0 {
        (product / 100) as i64
    } else {
        let down: i128 = (-product + 99) / 100;
        assert(-down == product / 100) by (nonlinear_arith)
            requires
                product < 0,
                down == (-product + 99) / 100,
        ;
        (-down) as i64
    }
}

} // verus!
