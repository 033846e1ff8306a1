//! Threads a spending budget through calls of a language-model provider.
//!
//! [`with_budget`] sets the estimated cost of a call aside, makes the call, holds the
//! reported usage against what was set aside, and gives the rest back.
pub mod call;
pub mod error;
pub mod estimator;
pub mod laws;
pub mod ledger;
pub mod pricing;
pub mod protocol;

pub use call::with_budget;
pub use error::BudgetedError;
pub use estimator::{ByteLength, TokenEstimator};
pub use ledger::{Budget, Receipt, Refund};
pub use pricing::ProviderPricing;
