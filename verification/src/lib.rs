//! Recurring-billing subscriptions: merchants publish plans, subscribers
//! enrol and prepay, and a billing operation moves one period's price from
//! the subscriber's prepaid balance to the merchant.
//!
//! The crate holds the ledger, the plan and subscription registries and the
//! billing rules, each with a mathematical model and a proved contract.

pub mod address;
pub mod amount;
pub mod billing;
pub mod contract;
pub mod events;
pub mod laws;
pub mod ledger;
pub mod plans;
pub mod subscriptions;
