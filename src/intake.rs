//! Decisions of purchase intake: which requests are rejected, and how a
//! failed insert is reported.

use vstd::prelude::*;

use crate::error::{ApiError, ApiErrorWithMeta, E_BAD_AMOUNT, E_DB_FAILURE, E_PURCHASE_CONFLICT};
use crate::responses::RequestMeta;
use crate::status::str_eq;

verus! {

/// The store's error code for a violated unique constraint.
pub const UNIQUE_VIOLATION: &'static str = "23505";

/// A request to record a purchase.
#[derive(Clone, Debug, PartialEq, Eq)]
pub struct CreatePurchaseRequest {
    /// The buyer.
    pub user_id: i64,
    /// The amount, in the smallest currency unit.
    pub amount: i64,
    /// The purchase status.
    pub status: String,
    /// The purchase id; a fresh one is made when absent.
    pub id: Option<u128>,
}

/// The characters of the message for a negative amount.
pub open spec fn bad_amount_message() -> Seq<char> {
    "amount must be >= 0"@
}

/// The characters of the message for a duplicate purchase.
pub open spec fn conflict_message() -> Seq<char> {
    "purchase already exists"@
}

/// Accepts a request amount of at least 0; rejects a negative one as a bad
/// request with the code for a bad amount.
pub fn check_amount(amount: i64, meta: RequestMeta) -> (r: Result<(), ApiErrorWithMeta>)
    ensures
        r is Ok <==> amount >= 0,
        r is Err ==> ({
            let e = r->Err_0;
            &&& e.error() is BadRequest
            &&& e.error()->BadRequest_0@ == bad_amount_message()
            &&& e.meta() == meta
            &&& e.code() is Some
            &&& e.code()->0@ == E_BAD_AMOUNT@
        }),
{
    if amount < 0 {
        let msg: &str = "amount must be >= 0";
        Err(ApiError::BadRequest(msg.to_owned()).with_meta(meta).with_code(E_BAD_AMOUNT))
    } else {
        Ok(())
    }
}

/// Reports a failed purchase insert: a violated unique constraint (the id
/// is taken) is a conflict with the conflict code; any other failure is
/// internal, carries `cause`, and has the store-failure code.
pub fn insert_failure(db_code: Option<&str>, cause: anyhow::Error, meta: RequestMeta) -> (r: ApiErrorWithMeta)
    ensures
        r.meta() == meta,
        r.code() is Some,
        match db_code {
            Some(c) if c@ == UNIQUE_VIOLATION@ => {
                &&& r.error() is Conflict
                &&& r.error()->Conflict_0@ == conflict_message()
                &&& r.code()->0@ == E_PURCHASE_CONFLICT@
            },
            _ => {
                &&& r.error() == ApiError::Internal(cause)
                &&& r.code()->0@ == E_DB_FAILURE@
            },
        },
{
    let taken: bool = match db_code {
        Some(c) => str_eq(c, UNIQUE_VIOLATION),
        None => false,
    };
    if taken {
        let msg: &str = "purchase already exists";
        ApiError::Conflict(msg.to_owned()).with_meta(meta).with_code(E_PURCHASE_CONFLICT)
    } else {
        ApiError::Internal(cause).with_meta(meta).with_code(E_DB_FAILURE)
    }
}

} // verus!
