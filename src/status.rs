//! Purchase status values shared with the purchase-intake side.

use vstd::prelude::*;

verus! {

/// A purchase that has been authorized but not yet captured.
pub const PAYMENT_STATUS_AUTHORIZED: &'static str = "authorized";

/// A captured purchase: the only status that settlement pays rewards for.
pub const PAYMENT_STATUS_CAPTURED: &'static str = "captured";

/// A purchase that was refunded.
pub const PAYMENT_STATUS_REFUNDED: &'static str = "refunded";

/// A purchase that was voided.
pub const PAYMENT_STATUS_VOIDED: &'static str = "voided";

/// The characters of the captured status.
pub open spec fn captured_status() -> Seq<char> {
    seq!['c', 'a', 'p', 't', 'u', 'r', 'e', 'd']
}

/// Whether `a` and `b` hold the same characters.
pub fn str_eq(a: &str, b: &str) -> (r: bool)
    ensures
        r == (a@ == b@),
{
    let n: usize = a.unicode_len();
    if n != b.unicode_len() {
        return false;
    }
    let mut i: usize = 0;
    while i < n
        invariant
            n == a@.len(),
            n == b@.len(),
            0 <= i <= n,
            forall|j: int| 0 <= j < i ==> a@[j] == b@[j],
        decreases n - i,
    {
        if a.get_char(i) != b.get_char(i) {
            return false;
        }
        i = i + 1;
    }
    assert(a@ =~= b@);
    true
}

/// Whether `status` is exactly the captured status.
pub fn is_captured(status: &str) -> (r: bool)
    ensures
        r == (status@ == captured_status()),
{
    proof {
        reveal_strlit("captured");
    }
    assert(PAYMENT_STATUS_CAPTURED@ =~= captured_status());
    str_eq(status, PAYMENT_STATUS_CAPTURED)
}

} // verus!
