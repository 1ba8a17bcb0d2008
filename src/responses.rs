//! Response bodies: request metadata, the success envelope and its payloads.

use vstd::prelude::*;

verus! {

/// Metadata attached to every response.
#[derive(Clone, Debug, PartialEq, Eq)]
pub struct RequestMeta {
    /// A unique id of the request.
    pub request_id: String,
    /// When the request arrived, in RFC 3339 form.
    pub request_at: String,
    /// When the request arrived, in seconds since the Unix epoch.
    pub timestamp: i64,
}

/// Paging information of a list response.
#[derive(Clone, Copy, Debug, PartialEq, Eq)]
pub struct Pagination {
    pub page: u32,
    pub per_page: u32,
    pub total: u64,
    pub total_pages: u32,
}

/// The body of every successful response.
pub struct SuccessEnvelope<T> {
    pub message: String,
    pub data: T,
    pub pagination: Option<Pagination>,
    pub meta: RequestMeta,
}

/// HTTP status of a plain success.
pub const STATUS_OK: u16 = 200;

/// HTTP status of a success that created a resource.
pub const STATUS_CREATED: u16 = 201;

/// A successful response: its HTTP status and its body.
pub struct ApiOk<T> {
    pub status: u16,
    pub body: SuccessEnvelope<T>,
}

impl<T> ApiOk<T> {
    /// A `200 OK` response carrying `data`.
    pub fn ok(message: String, data: T, meta: RequestMeta) -> (r: Self)
        ensures
            r.status == STATUS_OK,
            r.body.message == message,
            r.body.data == data,
            r.body.pagination is None,
            r.body.meta == meta,
    {
        ApiOk { status: STATUS_OK, body: SuccessEnvelope { message, data, pagination: None, meta } }
    }

    /// A `201 Created` response carrying `data`.
    pub fn created(message: String, data: T, meta: RequestMeta) -> (r: Self)
        ensures
            r.status == STATUS_CREATED,
            r.body.message == message,
            r.body.data == data,
            r.body.pagination is None,
            r.body.meta == meta,
    {
        ApiOk { status: STATUS_CREATED, body: SuccessEnvelope { message, data, pagination: None, meta } }
    }
}

/// A user's balance; a user who was never credited has 0.
#[derive(Clone, Copy, Debug, PartialEq, Eq)]
pub struct BalanceResponse {
    pub user_id: i64,
    pub balance: i64,
}

/// The id of a newly created purchase.
#[derive(Clone, Copy, Debug, PartialEq, Eq)]
pub struct CreatePurchaseResponse {
    pub id: u128,
}

/// The id of a purchase that was settled.
#[derive(Clone, Copy, Debug, PartialEq, Eq)]
pub struct ProcessResponse {
    pub processed: u128,
}

impl BalanceResponse {
    /// The balance of `user_id` from its balance row, if it has one.
    pub fn from_row(user_id: i64, row: Option<i64>) -> (r: Self)
        ensures
            r.user_id == user_id,
            r.balance == match row {
                Some(b) => b,
                None => 0,
            },
    {
        let balance: i64 = match row {
            Some(b) => b,
            None => 0,
        };
        BalanceResponse { user_id, balance }
    }
}

} // verus!
