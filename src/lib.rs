//! A recurring-billing ledger: subscription plans, per-user subscriptions,
//! single-use payment intents and an append-only payment history, each record
//! stored at an address derived from stable seeds.

pub mod address;
pub mod errors;
pub mod instructions;
pub mod loopr_subscription;
pub mod state;
pub mod text;

pub use errors::LooprError;
