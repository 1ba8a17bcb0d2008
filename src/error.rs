//! Errors reported to clients, with a machine-readable code.

use vstd::prelude::*;

use crate::model::SettleError;
use crate::responses::RequestMeta;

verus! {

/// A request amount was negative.
pub const E_BAD_AMOUNT: &'static str = "BAD_AMOUNT";

/// The store failed.
pub const E_DB_FAILURE: &'static str = "DB_FAILURE";

/// A purchase with the given id already exists.
pub const E_PURCHASE_CONFLICT: &'static str = "PURCHASE_CONFLICT";

/// The purchase to settle does not exist.
pub const E_PURCHASE_NOT_FOUND: &'static str = "PURCHASE_NOT_FOUND";

/// Settling a purchase failed.
pub const E_PROCESS_FAILURE: &'static str = "PROCESS_FAILURE";

/// HTTP status of a rejected request.
pub const STATUS_BAD_REQUEST: u16 = 400;

/// HTTP status of a missing resource.
pub const STATUS_NOT_FOUND: u16 = 404;

/// HTTP status of a conflict with existing data.
pub const STATUS_CONFLICT: u16 = 409;

/// HTTP status of an internal failure.
pub const STATUS_INTERNAL: u16 = 500;

/// An error with its cause carried through for logging.
#[verifier::external_type_specification]
#[verifier::external_body]
pub struct ExAnyhowError(anyhow::Error);

/// What went wrong with a request.
#[derive(Debug)]
pub enum ApiError {
    /// The request was malformed; the message is shown to the client.
    BadRequest(String),
    /// The request names something that does not exist; the message is shown.
    NotFound(String),
    /// The request conflicts with existing data; the message is shown.
    Conflict(String),
    /// An internal failure; its cause is logged, not shown.
    Internal(anyhow::Error),
}

/// An error together with the metadata of its request and an optional code.
#[derive(Debug)]
pub struct ApiErrorWithMeta {
    error: ApiError,
    meta: RequestMeta,
    code: Option<String>,
}

/// The message a client is shown for an internal failure.
pub open spec fn internal_message() -> Seq<char> {
    seq!['i', 'n', 't', 'e', 'r', 'n', 'a', 'l', ' ', 's', 'e', 'r', 'v', 'e', 'r', ' ', 'e', 'r', 'r', 'o', 'r']
}

impl ApiError {
    /// Attaches the request's metadata, with no code yet.
    pub fn with_meta(self, meta: RequestMeta) -> (r: ApiErrorWithMeta)
        ensures
            r.error() == self,
            r.meta() == meta,
            r.code() is None,
    {
        ApiErrorWithMeta { error: self, meta, code: None }
    }

    /// The HTTP status of the error.
    pub fn status(&self) -> (r: u16)
        ensures
            r == match self {
                ApiError::BadRequest(_) => STATUS_BAD_REQUEST,
                ApiError::NotFound(_) => STATUS_NOT_FOUND,
                ApiError::Conflict(_) => STATUS_CONFLICT,
                ApiError::Internal(_) => STATUS_INTERNAL,
            },
    {
        match self {
            ApiError::BadRequest(_) => STATUS_BAD_REQUEST,
            ApiError::NotFound(_) => STATUS_NOT_FOUND,
            ApiError::Conflict(_) => STATUS_CONFLICT,
            ApiError::Internal(_) => STATUS_INTERNAL,
        }
    }

    /// The message shown to the client: the given text for a rejected or
    /// conflicting request, a fixed text for an internal failure.
    pub fn public_message(&self) -> (r: String)
        ensures
            r@ == match self {
                ApiError::BadRequest(m) => m@,
                ApiError::NotFound(m) => m@,
                ApiError::Conflict(m) => m@,
                ApiError::Internal(_) => internal_message(),
            },
    {
        match self {
            ApiError::BadRequest(m) => m.clone(),
            ApiError::NotFound(m) => m.clone(),
            ApiError::Conflict(m) => m.clone(),
            ApiError::Internal(_) => {
                let s: &str = "internal server error";
                proof {
                    reveal_strlit("internal server error");
                }
                assert(s@ =~= internal_message());
                s.to_owned()
            },
        }
    }
}

impl ApiErrorWithMeta {
    /// The error.
    pub closed spec fn error(&self) -> ApiError {
        self.error
    }

    /// The request's metadata.
    pub closed spec fn meta(&self) -> RequestMeta {
        self.meta
    }

    /// The code, if one was set.
    pub closed spec fn code(&self) -> Option<String> {
        self.code
    }

    /// Sets the code, replacing any earlier one.
    pub fn with_code(self, code: &str) -> (r: Self)
        ensures
            r.error() == self.error(),
            r.meta() == self.meta(),
            r.code() is Some,
            r.code()->0@ == code@,
    {
        let mut s = self;
        s.code = Some(code.to_owned());
        s
    }

    /// The error, the metadata and the code.
    pub fn into_parts(self) -> (r: (ApiError, RequestMeta, Option<String>))
        ensures
            r == (self.error(), self.meta(), self.code()),
    {
        (self.error, self.meta, self.code)
    }
}

/// The characters of the message for a purchase that does not exist.
pub open spec fn purchase_not_found_message() -> Seq<char> {
    "purchase not found"@
}

/// Reports a failed settlement: a missing purchase is its own error, with
/// the not-found code; any other failure is internal, carries `cause`, and
/// has the code for a failed settlement.
pub fn settle_failure(e: SettleError, cause: anyhow::Error, meta: RequestMeta) -> (r: ApiErrorWithMeta)
    ensures
        r.meta() == meta,
        r.code() is Some,
        match e {
            SettleError::NotFound => {
                &&& r.error() is NotFound
                &&& r.error()->NotFound_0@ == purchase_not_found_message()
                &&& r.code()->0@ == E_PURCHASE_NOT_FOUND@
            },
            SettleError::StoreFailure => {
                &&& r.error() == ApiError::Internal(cause)
                &&& r.code()->0@ == E_PROCESS_FAILURE@
            },
        },
{
    match e {
        SettleError::NotFound => {
            let msg: &str = "purchase not found";
            ApiError::NotFound(msg.to_owned()).with_meta(meta).with_code(E_PURCHASE_NOT_FOUND)
        },
        SettleError::StoreFailure => ApiError::Internal(cause).with_meta(meta).with_code(E_PROCESS_FAILURE),
    }
}

} // verus!
