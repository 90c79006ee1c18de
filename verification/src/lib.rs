//! A payment ledger: incoming transfers are recorded once, keyed by their
//! transfer identifier, and each record's lifecycle status can be advanced
//! and looked up afterwards.

pub mod address;
pub mod columns;
pub mod error;
pub mod laws;
pub mod model;
pub mod payment;
pub mod status;
pub mod store;
pub mod transfers;
pub mod webhooks;
