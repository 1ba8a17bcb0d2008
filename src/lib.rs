//! Settlement of captured purchases into multi-level referral rewards.
//!
//! The library holds the decisions of settlement as a verified state
//! machine ([`settlement::Settlement`]) that a caller drives against a
//! transactional store, an abstract model of that store ([`model`]), and
//! the laws that settlement obeys over the model ([`laws`]). Around it
//! stand the request-level decisions of the service: errors and their
//! codes, response envelopes, intake checks and configuration.

pub mod amount;
pub mod config;
pub mod error;
pub mod intake;
pub mod laws;
pub mod model;
pub mod records;
pub mod responses;
pub mod settlement;
pub mod status;

pub use amount::{percent_of, L1_PERCENTAGE, L2_PERCENTAGE};
pub use config::{Config, ConfigError};
pub use error::{ApiError, ApiErrorWithMeta};
pub use intake::CreatePurchaseRequest;
pub use model::{RewardGrant, SettleError};
pub use records::{Referral, ReferralCode};
pub use responses::{
    ApiOk, BalanceResponse, CreatePurchaseResponse, Pagination, ProcessResponse, RequestMeta, SuccessEnvelope,
};
pub use settlement::{Action, Event, Phase, PurchaseRow, Settlement};
pub use status::is_captured;
