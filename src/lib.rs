//! Custody of a single lendable resource against a token stake, and an
//! admin-gated ledger of contributions per account.
pub mod contract;
pub mod contribution_token;
pub mod decimal;
pub mod error;
pub mod helpers;
pub mod reforestation_manager;
pub mod response;
