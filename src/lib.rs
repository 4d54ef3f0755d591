//! A token-weighted DAO treasury engine: governance-token voting on proposals,
//! a zero-coupon-bond market with collateral custody, and a treasury whose
//! withdrawals need the answers of three executives.
//!
//! The host ledger is modelled abstractly: assets are `Bucket`s and `Vault`s
//! of `Decimal` amounts, the clock is passed in as plain numbers, and events
//! are appended to an event log held by the organization.
pub mod bonds;
pub mod dao;
pub mod decimal;
pub mod error;
pub mod events;
pub mod governance;
pub mod laws;
pub mod ledger;
pub mod proposal;
pub mod treasury;
pub mod withdrawals;
pub mod zerocouponbond;
